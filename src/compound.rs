//! Codecs of strings, options, sequences, pairs and two-way alternatives.
use vstd::prelude::*;
use vstd::utf8::{decode_utf8, encode_utf8, encode_utf8_decode_utf8, encode_utf8_valid_utf8, valid_utf8};

use crate::error::DeserializeError;
use crate::types::{after, Serialize};
use crate::varint::{
    lemma_parse_varint_len, lemma_varint_round_trip, parse_varint, rest_of, varint_bytes, VarInt,
};

verus! {

/// Appends `bytes` to `buf`.
pub fn put_bytes(buf: &mut Vec<u8>, bytes: &[u8])
    ensures
        final(buf)@ == old(buf)@ + bytes@,
{
    let mut i: usize = 0;
    while i < bytes.len()
        invariant
            i <= bytes@.len(),
            buf@ == old(buf)@ + bytes@.subrange(0, i as int),
        decreases bytes@.len() - i,
    {
        buf.push(bytes[i]);
        assert(bytes@.subrange(0, i + 1) =~= bytes@.subrange(0, i as int).push(bytes@[i as int]));
        i = i + 1;
    }
    assert(bytes@.subrange(0, i as int) =~= bytes@);
}

/// The bytes `buf[from..to]` as a new vector.
pub fn copy_range(buf: &[u8], from: usize, to: usize) -> (r: Vec<u8>)
    requires
        from <= to <= buf@.len(),
    ensures
        r@ == buf@.subrange(from as int, to as int),
{
    let mut out: Vec<u8> = Vec::new();
    let mut i: usize = from;
    while i < to
        invariant
            from <= i <= to <= buf@.len(),
            out@ == buf@.subrange(from as int, i as int),
        decreases to - i,
    {
        out.push(buf[i]);
        assert(buf@.subrange(from as int, i + 1) =~= buf@.subrange(from as int, i as int).push(
            buf@[i as int],
        ));
        i = i + 1;
    }
    out
}

/// Relies on `String::from_utf8`: it accepts exactly the byte sequences that
/// are valid UTF-8, and the string it returns holds the characters they encode.
#[verifier::external_body]
fn string_from_utf8(bytes: Vec<u8>) -> (r: Option<String>)
    ensures
        r.is_some() == valid_utf8(bytes@),
        r matches Some(s) ==> s@ == decode_utf8(bytes@),
{
    String::from_utf8(bytes).ok()
}

proof fn lemma_skip(s: Seq<u8>, a: Seq<u8>, rest: Seq<u8>)
    requires
        s == a + rest,
    ensures
        s.subrange(a.len() as int, s.len() as int) == rest,
        s.subrange(0, a.len() as int) == a,
{
    assert(s.subrange(a.len() as int, s.len() as int) =~= rest);
    assert(s.subrange(0, a.len() as int) =~= a);
}

/// Strings: a `VarInt` byte count, then the UTF-8 bytes.
impl Serialize for String {
    type Model = Seq<char>;

    open spec fn self_delimited() -> bool {
        true
    }

    open spec fn model(&self) -> Seq<char> {
        self@
    }

    open spec fn valid(m: Seq<char>) -> bool {
        encode_utf8(m).len() <= i32::MAX
    }

    open spec fn encode(m: Seq<char>) -> Seq<u8> {
        varint_bytes(encode_utf8(m).len() as i32) + encode_utf8(m)
    }

    open spec fn parse(s: Seq<u8>) -> Result<(Seq<char>, nat), DeserializeError> {
        match parse_varint(s) {
            Err(e) => Err(e),
            Ok((n, k)) => if n < 0 || s.len() - k < n {
                Err(DeserializeError::UnexpectedEof)
            } else {
                let bytes = s.subrange(k as int, k + n);
                if valid_utf8(bytes) {
                    Ok((decode_utf8(bytes), k + n as nat))
                } else {
                    Err(DeserializeError::InvalidUtf8)
                }
            },
        }
    }

    fn serialize(&self, buf: &mut Vec<u8>) {
        let bytes = self.as_str().as_bytes();
        VarInt(bytes.len() as i32).serialize(buf);
        put_bytes(buf, bytes);
        assert(final(buf)@ =~= old(buf)@ + Self::encode(self@));
    }

    fn deserialize(buf: &[u8], pos: usize) -> (r: Result<(String, usize), DeserializeError>) {
        let len = buf.len();
        proof {
            lemma_parse_varint_len(rest_of(buf@, pos));
        }
        match VarInt::deserialize(buf, pos) {
            Err(e) => Err(e),
            Ok((n, p)) => {
                if n.0 < 0 || len - p < n.0 as usize {
                    Err(DeserializeError::UnexpectedEof)
                } else {
                    let end = p + n.0 as usize;
                    let bytes = copy_range(buf, p, end);
                    assert(bytes@ =~= rest_of(buf@, pos).subrange(
                        (p - pos) as int,
                        (p - pos) as int + n.0 as int,
                    ));
                    match string_from_utf8(bytes) {
                        Some(st) => Ok((st, end)),
                        None => Err(DeserializeError::InvalidUtf8),
                    }
                }
            },
        }
    }

    proof fn lemma_round_trip(m: Seq<char>, rest: Seq<u8>) {
        let b = encode_utf8(m);
        let s = Self::encode(m) + rest;
        assert(s =~= varint_bytes(b.len() as i32) + (b + rest));
        lemma_varint_round_trip(b.len() as i32, b + rest);
        let k = varint_bytes(b.len() as i32).len();
        assert(s.subrange(k as int, (k + b.len()) as int) =~= b);
        encode_utf8_valid_utf8(m);
        encode_utf8_decode_utf8(m);
    }

    proof fn lemma_parse_len(s: Seq<u8>) {
        lemma_parse_varint_len(s);
    }
}

/// Options: a present flag, then the value when it is present.
impl<T: Serialize> Serialize for Option<T> {
    type Model = Option<T::Model>;

    open spec fn self_delimited() -> bool {
        T::self_delimited()
    }

    open spec fn model(&self) -> Option<T::Model> {
        match self {
            Some(t) => Some(t.model()),
            None => None,
        }
    }

    open spec fn valid(m: Option<T::Model>) -> bool {
        match m {
            Some(t) => T::valid(t),
            None => true,
        }
    }

    open spec fn encode(m: Option<T::Model>) -> Seq<u8> {
        match m {
            Some(t) => seq![1u8] + T::encode(t),
            None => seq![0u8],
        }
    }

    open spec fn parse(s: Seq<u8>) -> Result<(Option<T::Model>, nat), DeserializeError> {
        if s.len() < 1 {
            Err(DeserializeError::UnexpectedEof)
        } else if s[0] != 0 {
            match T::parse(s.drop_first()) {
                Ok((t, n)) => Ok((Some(t), n + 1)),
                Err(e) => Err(e),
            }
        } else {
            Ok((None, 1))
        }
    }

    fn serialize(&self, buf: &mut Vec<u8>) {
        match self {
            Some(t) => {
                buf.push(1u8);
                t.serialize(buf);
            },
            None => {
                buf.push(0u8);
            },
        }
        assert(final(buf)@ =~= old(buf)@ + Self::encode(self.model()));
    }

    fn deserialize(buf: &[u8], pos: usize) -> (r: Result<(Option<T>, usize), DeserializeError>) {
        if buf.len() - pos < 1 {
            Err(DeserializeError::UnexpectedEof)
        } else if buf[pos] != 0 {
            assert(rest_of(buf@, pos).drop_first() =~= rest_of(buf@, (pos + 1) as usize));
            match T::deserialize(buf, pos + 1) {
                Ok((t, p)) => Ok((Some(t), p)),
                Err(e) => Err(e),
            }
        } else {
            Ok((None, pos + 1))
        }
    }

    proof fn lemma_round_trip(m: Option<T::Model>, rest: Seq<u8>) {
        match m {
            Some(t) => {
                let s = Self::encode(m) + rest;
                assert(s.drop_first() =~= T::encode(t) + rest);
                T::lemma_round_trip(t, rest);
            },
            None => {
            },
        }
    }

    proof fn lemma_parse_len(s: Seq<u8>) {
        if s.len() >= 1 {
            T::lemma_parse_len(s.drop_first());
        }
    }
}

/// The encodings of `ms`, one after the other.
pub open spec fn encode_items<T: Serialize>(ms: Seq<T::Model>) -> Seq<u8>
    decreases ms.len(),
{
    if ms.len() == 0 {
        seq![]
    } else {
        T::encode(ms[0]) + encode_items::<T>(ms.drop_first())
    }
}

/// Reads `n` values one after the other from the front of `s`.
pub open spec fn parse_items<T: Serialize>(s: Seq<u8>, n: nat) -> Result<
    (Seq<T::Model>, nat),
    DeserializeError,
>
    decreases n,
{
    if n == 0 {
        Ok((seq![], 0))
    } else {
        match T::parse(s) {
            Err(e) => Err(e),
            Ok((m, a)) => match parse_items::<T>(s.subrange(a as int, s.len() as int), (n - 1) as nat) {
                Err(e) => Err(e),
                Ok((ms, b)) => Ok((seq![m] + ms, a + b)),
            },
        }
    }
}

/// `r` with `ms` read before it, taking `k` bytes.
pub open spec fn prepend<M>(ms: Seq<M>, k: nat, r: Result<(Seq<M>, nat), DeserializeError>) -> Result<
    (Seq<M>, nat),
    DeserializeError,
> {
    match r {
        Ok((ms2, b)) => Ok((ms + ms2, k + b)),
        Err(e) => Err(e),
    }
}

proof fn lemma_encode_items_push<T: Serialize>(ms: Seq<T::Model>, m: T::Model)
    ensures
        encode_items::<T>(ms.push(m)) == encode_items::<T>(ms) + T::encode(m),
    decreases ms.len(),
{
    if ms.len() == 0 {
        let one = ms.push(m);
        assert(one.drop_first() =~= Seq::<T::Model>::empty());
        assert(encode_items::<T>(one.drop_first()) == Seq::<u8>::empty());
        assert(one[0] == m);
        assert(encode_items::<T>(ms) == Seq::<u8>::empty());
        assert(encode_items::<T>(one) =~= encode_items::<T>(ms) + T::encode(m));
    } else {
        assert(ms.push(m).drop_first() =~= ms.drop_first().push(m));
        lemma_encode_items_push::<T>(ms.drop_first(), m);
        assert(encode_items::<T>(ms.push(m)) =~= encode_items::<T>(ms) + T::encode(m));
    }
}

proof fn lemma_items_round_trip<T: Serialize>(ms: Seq<T::Model>, rest: Seq<u8>)
    requires
        T::self_delimited(),
        forall|i: int| 0 <= i < ms.len() ==> T::valid(#[trigger] ms[i]),
    ensures
        parse_items::<T>(encode_items::<T>(ms) + rest, ms.len()) == Ok::<
            (Seq<T::Model>, nat),
            DeserializeError,
        >((ms, encode_items::<T>(ms).len())),
    decreases ms.len(),
{
    if ms.len() > 0 {
        let tail = ms.drop_first();
        let s = encode_items::<T>(ms) + rest;
        assert(s =~= T::encode(ms[0]) + (encode_items::<T>(tail) + rest));
        T::lemma_round_trip(ms[0], encode_items::<T>(tail) + rest);
        lemma_skip(s, T::encode(ms[0]), encode_items::<T>(tail) + rest);
        lemma_items_round_trip::<T>(tail, rest);
        assert(seq![ms[0]] + tail =~= ms);
    } else {
        assert(ms =~= seq![]);
    }
}

/// Sequences: a `VarInt` element count, then the elements.
impl<T: Serialize> Serialize for Vec<T> {
    type Model = Seq<T::Model>;

    open spec fn self_delimited() -> bool {
        true
    }

    open spec fn model(&self) -> Seq<T::Model> {
        Seq::new(self@.len(), |i: int| self@[i].model())
    }

    open spec fn valid(m: Seq<T::Model>) -> bool {
        &&& T::self_delimited()
        &&& m.len() <= i32::MAX
        &&& forall|i: int| 0 <= i < m.len() ==> T::valid(#[trigger] m[i])
    }

    open spec fn encode(m: Seq<T::Model>) -> Seq<u8> {
        varint_bytes(m.len() as i32) + encode_items::<T>(m)
    }

    open spec fn parse(s: Seq<u8>) -> Result<(Seq<T::Model>, nat), DeserializeError> {
        match parse_varint(s) {
            Err(e) => Err(e),
            Ok((n, k)) => if n < 0 {
                Err(DeserializeError::UnexpectedEof)
            } else {
                after(parse_items::<T>(s.subrange(k as int, s.len() as int), n as nat), k)
            },
        }
    }

    fn serialize(&self, buf: &mut Vec<u8>) {
        VarInt(self.len() as i32).serialize(buf);
        let ghost start = buf@;
        let ghost ms = self.model();
        let mut i: usize = 0;
        while i < self.len()
            invariant
                i <= self@.len(),
                ms == self.model(),
                Self::valid(ms),
                buf@ == start + encode_items::<T>(ms.subrange(0, i as int)),
            decreases self@.len() - i,
        {
            assert(T::valid(ms[i as int]));
            self[i].serialize(buf);
            proof {
                lemma_encode_items_push::<T>(ms.subrange(0, i as int), ms[i as int]);
                assert(ms.subrange(0, i + 1) =~= ms.subrange(0, i as int).push(ms[i as int]));
            }
            i = i + 1;
        }
        assert(ms.subrange(0, i as int) =~= ms);
        assert(final(buf)@ =~= old(buf)@ + Self::encode(self.model()));
    }

    fn deserialize(buf: &[u8], pos: usize) -> (r: Result<(Vec<T>, usize), DeserializeError>) {
        let len = buf.len();
        proof {
            lemma_parse_varint_len(rest_of(buf@, pos));
        }
        match VarInt::deserialize(buf, pos) {
            Err(e) => Err(e),
            Ok((count, p0)) => {
                if count.0 < 0 {
                    return Err(DeserializeError::UnexpectedEof);
                }
                let n = count.0 as usize;
                let ghost s0 = rest_of(buf@, p0);
                assert(rest_of(buf@, pos).subrange((p0 - pos) as int, rest_of(buf@, pos).len() as int)
                    =~= s0);
                let mut items: Vec<T> = Vec::new();
                let mut p = p0;
                let mut i: usize = 0;
                while i < n
                    invariant
                        len == buf@.len(),
                        p0 <= p <= len,
                        i <= n,
                        items@.len() == i,
                        s0 == rest_of(buf@, p0),
                        pos <= p0,
                        Self::parse(rest_of(buf@, pos)) == after(
                            parse_items::<T>(s0, n as nat),
                            (p0 - pos) as nat,
                        ),
                        parse_items::<T>(s0, n as nat) == prepend(
                            items.model(),
                            (p - p0) as nat,
                            parse_items::<T>(rest_of(buf@, p), (n - i) as nat),
                        ),
                    decreases n - i,
                {
                    proof {
                        T::lemma_parse_len(rest_of(buf@, p));
                    }
                    match T::deserialize(buf, p) {
                        Err(e) => {
                            assert(parse_items::<T>(rest_of(buf@, p), (n - i) as nat) == Err::<
                                (Seq<T::Model>, nat),
                                DeserializeError,
                            >(e));
                            return Err(e);
                        },
                        Ok((v, q)) => {
                            let ghost old_items = items.model();
                            let ghost vm = v.model();
                            proof {
                                assert(rest_of(buf@, p).subrange(
                                    (q - p) as int,
                                    rest_of(buf@, p).len() as int,
                                ) =~= rest_of(buf@, q));
                            }
                            items.push(v);
                            proof {
                                assert(items.model() =~= old_items.push(vm));
                                assert(old_items + (seq![vm] + Seq::<T::Model>::empty())
                                    =~= old_items.push(vm));
                                match parse_items::<T>(rest_of(buf@, q), (n - i - 1) as nat) {
                                    Ok((ms2, b)) => {
                                        assert(old_items + (seq![vm] + ms2) =~= old_items.push(vm)
                                            + ms2);
                                    },
                                    Err(e) => {
                                    },
                                }
                            }
                            p = q;
                            i = i + 1;
                        },
                    }
                }
                assert(items.model() + Seq::<T::Model>::empty() =~= items.model());
                Ok((items, p))
            },
        }
    }

    proof fn lemma_round_trip(m: Seq<T::Model>, rest: Seq<u8>) {
        let s = Self::encode(m) + rest;
        let e = encode_items::<T>(m);
        assert(s =~= varint_bytes(m.len() as i32) + (e + rest));
        lemma_varint_round_trip(m.len() as i32, e + rest);
        lemma_skip(s, varint_bytes(m.len() as i32), e + rest);
        lemma_items_round_trip::<T>(m, rest);
    }

    proof fn lemma_parse_len(s: Seq<u8>) {
        lemma_parse_varint_len(s);
        if let Ok((n, k)) = parse_varint(s) {
            if n >= 0 {
                lemma_parse_items_len::<T>(s.subrange(k as int, s.len() as int), n as nat);
            }
        }
    }
}

proof fn lemma_parse_items_len<T: Serialize>(s: Seq<u8>, n: nat)
    ensures
        parse_items::<T>(s, n) matches Ok((_, b)) ==> b <= s.len(),
    decreases n,
{
    if n > 0 {
        T::lemma_parse_len(s);
        if let Ok((m, a)) = T::parse(s) {
            lemma_parse_items_len::<T>(s.subrange(a as int, s.len() as int), (n - 1) as nat);
        }
    }
}

/// Pairs: the first value, then the second.
impl<A: Serialize, B: Serialize> Serialize for (A, B) {
    type Model = (A::Model, B::Model);

    open spec fn self_delimited() -> bool {
        B::self_delimited()
    }

    open spec fn model(&self) -> (A::Model, B::Model) {
        (self.0.model(), self.1.model())
    }

    open spec fn valid(m: (A::Model, B::Model)) -> bool {
        A::self_delimited() && A::valid(m.0) && B::valid(m.1)
    }

    open spec fn encode(m: (A::Model, B::Model)) -> Seq<u8> {
        A::encode(m.0) + B::encode(m.1)
    }

    open spec fn parse(s: Seq<u8>) -> Result<((A::Model, B::Model), nat), DeserializeError> {
        match A::parse(s) {
            Err(e) => Err(e),
            Ok((a, n)) => match B::parse(s.subrange(n as int, s.len() as int)) {
                Err(e) => Err(e),
                Ok((b, k)) => Ok(((a, b), n + k)),
            },
        }
    }

    fn serialize(&self, buf: &mut Vec<u8>) {
        self.0.serialize(buf);
        self.1.serialize(buf);
        assert(final(buf)@ =~= old(buf)@ + Self::encode(self.model()));
    }

    fn deserialize(buf: &[u8], pos: usize) -> (r: Result<((A, B), usize), DeserializeError>) {
        let _len = buf.len();
        match A::deserialize(buf, pos) {
            Err(e) => Err(e),
            Ok((a, p)) => {
                assert(rest_of(buf@, pos).subrange((p - pos) as int, rest_of(buf@, pos).len() as int)
                    =~= rest_of(buf@, p));
                match B::deserialize(buf, p) {
                    Err(e) => Err(e),
                    Ok((b, q)) => Ok(((a, b), q)),
                }
            },
        }
    }

    proof fn lemma_round_trip(m: (A::Model, B::Model), rest: Seq<u8>) {
        let s = Self::encode(m) + rest;
        assert(s =~= A::encode(m.0) + (B::encode(m.1) + rest));
        A::lemma_round_trip(m.0, B::encode(m.1) + rest);
        lemma_skip(s, A::encode(m.0), B::encode(m.1) + rest);
        B::lemma_round_trip(m.1, rest);
    }

    proof fn lemma_parse_len(s: Seq<u8>) {
        A::lemma_parse_len(s);
        if let Ok((a, n)) = A::parse(s) {
            B::lemma_parse_len(s.subrange(n as int, s.len() as int));
        }
    }
}

/// One of two values.
#[derive(Debug, Clone)]
pub enum Either<L, R> {
    Left(L),
    Right(R),
}

/// Two-way alternatives: a flag that is true for `Left`, then that branch.
impl<L: Serialize, R: Serialize> Serialize for Either<L, R> {
    type Model = Either<L::Model, R::Model>;

    open spec fn self_delimited() -> bool {
        L::self_delimited() && R::self_delimited()
    }

    open spec fn model(&self) -> Either<L::Model, R::Model> {
        match self {
            Either::Left(l) => Either::Left(l.model()),
            Either::Right(r) => Either::Right(r.model()),
        }
    }

    open spec fn valid(m: Either<L::Model, R::Model>) -> bool {
        match m {
            Either::Left(l) => L::valid(l),
            Either::Right(r) => R::valid(r),
        }
    }

    open spec fn encode(m: Either<L::Model, R::Model>) -> Seq<u8> {
        match m {
            Either::Left(l) => seq![1u8] + L::encode(l),
            Either::Right(r) => seq![0u8] + R::encode(r),
        }
    }

    open spec fn parse(s: Seq<u8>) -> Result<(Either<L::Model, R::Model>, nat), DeserializeError> {
        if s.len() < 1 {
            Err(DeserializeError::UnexpectedEof)
        } else if s[0] != 0 {
            match L::parse(s.drop_first()) {
                Ok((l, n)) => Ok((Either::Left(l), n + 1)),
                Err(e) => Err(e),
            }
        } else {
            match R::parse(s.drop_first()) {
                Ok((r, n)) => Ok((Either::Right(r), n + 1)),
                Err(e) => Err(e),
            }
        }
    }

    fn serialize(&self, buf: &mut Vec<u8>) {
        match self {
            Either::Left(l) => {
                buf.push(1u8);
                l.serialize(buf);
            },
            Either::Right(r) => {
                buf.push(0u8);
                r.serialize(buf);
            },
        }
        assert(final(buf)@ =~= old(buf)@ + Self::encode(self.model()));
    }

    fn deserialize(buf: &[u8], pos: usize) -> (r: Result<(Either<L, R>, usize), DeserializeError>) {
        if buf.len() - pos < 1 {
            return Err(DeserializeError::UnexpectedEof);
        }
        assert(rest_of(buf@, pos).drop_first() =~= rest_of(buf@, (pos + 1) as usize));
        if buf[pos] != 0 {
            match L::deserialize(buf, pos + 1) {
                Ok((l, p)) => Ok((Either::Left(l), p)),
                Err(e) => Err(e),
            }
        } else {
            match R::deserialize(buf, pos + 1) {
                Ok((r, p)) => Ok((Either::Right(r), p)),
                Err(e) => Err(e),
            }
        }
    }

    proof fn lemma_round_trip(m: Either<L::Model, R::Model>, rest: Seq<u8>) {
        let s = Self::encode(m) + rest;
        match m {
            Either::Left(l) => {
                assert(s.drop_first() =~= L::encode(l) + rest);
                L::lemma_round_trip(l, rest);
            },
            Either::Right(r) => {
                assert(s.drop_first() =~= R::encode(r) + rest);
                R::lemma_round_trip(r, rest);
            },
        }
    }

    proof fn lemma_parse_len(s: Seq<u8>) {
        if s.len() >= 1 {
            L::lemma_parse_len(s.drop_first());
            R::lemma_parse_len(s.drop_first());
        }
    }
}

} // verus!

verus! {

/// A rotation in 256ths of a full turn.
#[derive(Debug, Clone, Copy, PartialEq, Eq, Structural)]
pub struct Angle(pub u8);

/// Angles: one byte.
impl Serialize for Angle {
    type Model = u8;

    open spec fn self_delimited() -> bool {
        true
    }

    open spec fn model(&self) -> u8 {
        self.0
    }

    open spec fn valid(m: u8) -> bool {
        true
    }

    open spec fn encode(m: u8) -> Seq<u8> {
        seq![m]
    }

    open spec fn parse(s: Seq<u8>) -> Result<(u8, nat), DeserializeError> {
        <u8 as Serialize>::parse(s)
    }

    fn serialize(&self, buf: &mut Vec<u8>) {
        self.0.serialize(buf);
    }

    fn deserialize(buf: &[u8], pos: usize) -> (r: Result<(Angle, usize), DeserializeError>) {
        match <u8 as Serialize>::deserialize(buf, pos) {
            Ok((b, p)) => Ok((Angle(b), p)),
            Err(e) => Err(e),
        }
    }

    proof fn lemma_round_trip(m: u8, rest: Seq<u8>) {
        <u8 as Serialize>::lemma_round_trip(m, rest);
    }

    proof fn lemma_parse_len(s: Seq<u8>) {
    }
}

/// Bytes that end a packet: written as they are, and read as everything left
/// in the packet, since the frame gives their length.
#[derive(Debug, Clone)]
pub struct InferredLenByteArray(pub Vec<u8>);

impl InferredLenByteArray {
    /// Appends the bytes to `buf`.
    pub fn serialize(&self, buf: &mut Vec<u8>)
        ensures
            final(buf)@ == old(buf)@ + self.0@,
    {
        put_bytes(buf, self.0.as_slice());
    }

    /// Takes every byte of `buf` from `pos` on: the bytes and the end of `buf`.
    pub fn deserialize(buf: &[u8], pos: usize) -> (r: (InferredLenByteArray, usize))
        requires
            pos <= buf@.len(),
        ensures
            r.0.0@ == rest_of(buf@, pos),
            r.1 == buf@.len(),
    {
        (InferredLenByteArray(copy_range(buf, pos, buf.len())), buf.len())
    }
}

impl From<Vec<u8>> for InferredLenByteArray {
    fn from(vec: Vec<u8>) -> (r: InferredLenByteArray)
        ensures
            r.0 == vec,
    {
        InferredLenByteArray(vec)
    }
}

impl vstd::std_specs::convert::FromSpecImpl<Vec<u8>> for InferredLenByteArray {
    open spec fn obeys_from_spec() -> bool {
        true
    }

    open spec fn from_spec(vec: Vec<u8>) -> InferredLenByteArray {
        InferredLenByteArray(vec)
    }
}

} // verus!
