//! Variable-length integers: seven bits per byte, low group first, the high
//! bit of each byte set when another byte follows.
use vstd::prelude::*;

use crate::error::DeserializeError;

verus! {

/// A 32-bit signed integer written in one to five bytes.
#[derive(Debug, Clone, Copy, PartialEq, Eq, Structural)]
pub struct VarInt(pub i32);

/// A 64-bit signed integer written in one to ten bytes.
#[derive(Debug, Clone, Copy, PartialEq, Eq, Structural)]
pub struct VarLong(pub i64);

/// Most bytes a `VarInt` may take.
pub const VARINT_MAX_BYTES: usize = 5;

/// Most bytes a `VarLong` may take.
pub const VARLONG_MAX_BYTES: usize = 10;

/// Number of seven-bit groups needed to write `v`.
pub open spec fn var_len(v: u64) -> nat {
    if v >> 7u64 == 0 {
        1
    } else if v >> 14u64 == 0 {
        2
    } else if v >> 21u64 == 0 {
        3
    } else if v >> 28u64 == 0 {
        4
    } else if v >> 35u64 == 0 {
        5
    } else if v >> 42u64 == 0 {
        6
    } else if v >> 49u64 == 0 {
        7
    } else if v >> 56u64 == 0 {
        8
    } else if v >> 63u64 == 0 {
        9
    } else {
        10
    }
}

/// The seven-bit group number `i` of `v`.
pub open spec fn var_group(v: u64, i: nat) -> u8 {
    ((v >> (7 * i) as u64) & 0x7f) as u8
}

/// Byte `i` of the `n`-byte encoding of `v`.
pub open spec fn var_byte(v: u64, i: nat, n: nat) -> u8 {
    if i + 1 < n {
        var_group(v, i) | 0x80u8
    } else {
        var_group(v, i)
    }
}

/// The bytes that encode `v`.
pub open spec fn var_bytes(v: u64) -> Seq<u8> {
    Seq::new(var_len(v), |i: int| var_byte(v, i as nat, var_len(v)))
}

/// The accumulator after folding in byte `b` at group position `i`.
pub open spec fn var_step(acc: u64, b: u8, i: nat) -> u64 {
    acc | (((b & 0x7fu8) as u64) << (7 * i) as u64)
}

/// Reads a variable-length integer of at most `max` bytes from `s`, starting at
/// byte `i` with the groups read so far in `acc`: the value and the number of
/// bytes it took, or why it failed.
pub open spec fn parse_var_from(s: Seq<u8>, i: nat, acc: u64, max: nat) -> Result<
    (u64, nat),
    DeserializeError,
>
    decreases max - i,
{
    if i >= max {
        Err(DeserializeError::VarIntTooLong)
    } else if i >= s.len() {
        Err(DeserializeError::UnexpectedEof)
    } else {
        let acc2 = var_step(acc, s[i as int], i);
        if s[i as int] < 0x80 {
            Ok((acc2, i + 1))
        } else if i + 1 >= max {
            // The last byte still says more follow: that is an error once a
            // further byte is there, and a wait for more bytes until then.
            if i + 1 >= s.len() {
                Err(DeserializeError::UnexpectedEof)
            } else {
                Err(DeserializeError::VarIntTooLong)
            }
        } else {
            parse_var_from(s, i + 1, acc2, max)
        }
    }
}

/// Reads a variable-length integer of at most `max` bytes from the front of `s`.
pub open spec fn parse_var(s: Seq<u8>, max: nat) -> Result<(u64, nat), DeserializeError> {
    parse_var_from(s, 0, 0, max)
}

/// What a `VarInt` read from the front of `s` gives: the value and its length.
pub open spec fn parse_varint(s: Seq<u8>) -> Result<(i32, nat), DeserializeError> {
    match parse_var(s, 5) {
        Ok((v, n)) => Ok((v as u32 as i32, n)),
        Err(e) => Err(e),
    }
}

/// What a `VarLong` read from the front of `s` gives: the value and its length.
pub open spec fn parse_varlong(s: Seq<u8>) -> Result<(i64, nat), DeserializeError> {
    match parse_var(s, 10) {
        Ok((v, n)) => Ok((v as i64, n)),
        Err(e) => Err(e),
    }
}

/// The bytes of `VarInt(v)`.
pub open spec fn varint_bytes(v: i32) -> Seq<u8> {
    var_bytes(v as u32 as u64)
}

/// The bytes of `VarLong(v)`.
pub open spec fn varlong_bytes(v: i64) -> Seq<u8> {
    var_bytes(v as u64)
}

/// The low `k` bits of `v`.
pub open spec fn low_bits(v: u64, k: u64) -> u64 {
    v & (((1u64 << k) - 1) as u64)
}

proof fn lemma_group_byte(v: u64, k: u64)
    by (bit_vector)
    requires
        k < 64,
    ensures
        ((((((v >> k) & 0x7f) as u8) | 0x80u8) & 0x7fu8) as u64) == (v >> k) & 0x7f,
        (((((v >> k) & 0x7f) as u8) & 0x7fu8) as u64) == (v >> k) & 0x7f,
        ((((v >> k) & 0x7f) as u8) | 0x80u8) >= 0x80,
        (((v >> k) & 0x7f) as u8) < 0x80,
{
}

proof fn lemma_low_bits_step(v: u64, k: u64)
    by (bit_vector)
    requires
        k + 7 <= 63,
    ensures
        low_bits(v, k) | (((v >> k) & 0x7f) << k) == low_bits(v, (k + 7) as u64),
{
}

proof fn lemma_low_bits_last(v: u64, k: u64)
    by (bit_vector)
    requires
        k <= 63,
        k + 7 >= 64 || v >> ((k + 7) as u64) == 0,
    ensures
        low_bits(v, k) | (((v >> k) & 0x7f) << k) == v,
{
}

proof fn lemma_low_bits_zero(v: u64)
    by (bit_vector)
    ensures
        low_bits(v, 0) == 0,
{
}

proof fn lemma_var_len_bound(v: u64)
    ensures
        1 <= var_len(v) <= 10,
        var_len(v) < 10 ==> v >> (7 * var_len(v)) as u64 == 0,
{
}

proof fn lemma_var_len_32(v: u32)
    ensures
        var_len(v as u64) <= 5,
{
    let w = v as u64;
    assert(w >> 35u64 == 0) by (bit_vector)
        requires
            w == v as u64,
    ;
}

/// Reading the canonical bytes of `v` from position `i`, with the low groups
/// already folded in, gives back `v` and the full length.
proof fn lemma_parse_var_canonical(v: u64, s: Seq<u8>, i: nat, max: nat)
    requires
        var_len(v) <= max,
        var_len(v) <= s.len(),
        s.subrange(0, var_len(v) as int) == var_bytes(v),
        i < var_len(v),
    ensures
        parse_var_from(s, i, low_bits(v, (7 * i) as u64), max) == Ok::<(u64, nat), DeserializeError>(
            (v, var_len(v)),
        ),
    decreases var_len(v) - i,
{
    let n = var_len(v);
    lemma_var_len_bound(v);
    let k = (7 * i) as u64;
    assert(s[i as int] == var_bytes(v)[i as int]);
    assert(s[i as int] == var_byte(v, i, n));
    lemma_group_byte(v, k);
    if i + 1 < n {
        assert(s[i as int] >= 0x80);
        lemma_low_bits_step(v, k);
        assert(var_step(low_bits(v, k), s[i as int], i) == low_bits(v, (7 * (i + 1)) as u64));
        lemma_parse_var_canonical(v, s, i + 1, max);
    } else {
        assert(s[i as int] < 0x80);
        lemma_low_bits_last(v, k);
        assert(var_step(low_bits(v, k), s[i as int], i) == v);
    }
}

/// Reading a strict prefix of the canonical bytes of `v` runs out of input.
proof fn lemma_parse_var_prefix(v: u64, s: Seq<u8>, i: nat, acc: u64, max: nat)
    requires
        var_len(v) <= max,
        s.len() < var_len(v),
        s == var_bytes(v).subrange(0, s.len() as int),
        i <= s.len(),
    ensures
        parse_var_from(s, i, acc, max) == Err::<(u64, nat), DeserializeError>(
            DeserializeError::UnexpectedEof,
        ),
    decreases s.len() - i,
{
    let n = var_len(v);
    lemma_var_len_bound(v);
    if i < s.len() {
        let k = (7 * i) as u64;
        assert(s[i as int] == var_byte(v, i, n));
        lemma_group_byte(v, k);
        lemma_parse_var_prefix(v, s, i + 1, var_step(acc, s[i as int], i), max);
    }
}

/// Decoding the encoding of any `VarInt`, whatever follows it, gives the value
/// back and consumes exactly its encoded length.
pub proof fn lemma_varint_round_trip(v: i32, rest: Seq<u8>)
    ensures
        parse_varint(varint_bytes(v) + rest) == Ok::<(i32, nat), DeserializeError>(
            (v, varint_bytes(v).len()),
        ),
        varint_bytes(v).len() == VarInt(v).spec_len(),
        1 <= varint_bytes(v).len() <= 5,
{
    let w = v as u32 as u64;
    let s = var_bytes(w) + rest;
    lemma_var_len_32(v as u32);
    assert(s.subrange(0, var_len(w) as int) =~= var_bytes(w));
    lemma_low_bits_zero(w);
    lemma_parse_var_canonical(w, s, 0, 5);
    assert(w as u32 as i32 == v) by (bit_vector)
        requires
            w == v as u32 as u64,
    ;
    lemma_varint_len_matches(v);
}

/// Decoding the encoding of any `VarLong`, whatever follows it, gives the value
/// back and consumes exactly its encoded length.
pub proof fn lemma_varlong_round_trip(v: i64, rest: Seq<u8>)
    ensures
        parse_varlong(varlong_bytes(v) + rest) == Ok::<(i64, nat), DeserializeError>(
            (v, varlong_bytes(v).len()),
        ),
{
    let w = v as u64;
    let s = var_bytes(w) + rest;
    lemma_var_len_bound(w);
    assert(s.subrange(0, var_len(w) as int) =~= var_bytes(w));
    lemma_low_bits_zero(w);
    lemma_parse_var_canonical(w, s, 0, 10);
    assert(w as i64 == v) by (bit_vector)
        requires
            w == v as u64,
    ;
}

/// Any strict prefix of a `VarInt`'s encoding asks for more bytes.
pub proof fn lemma_varint_prefix(v: i32, k: nat)
    requires
        k < varint_bytes(v).len(),
    ensures
        parse_varint(varint_bytes(v).subrange(0, k as int)) == Err::<(i32, nat), DeserializeError>(
            DeserializeError::UnexpectedEof,
        ),
{
    let w = v as u32 as u64;
    lemma_var_len_32(v as u32);
    lemma_parse_var_prefix(w, var_bytes(w).subrange(0, k as int), 0, 0, 5);
}

/// How a parse at the front of `buf[pos..]` reads as positions in `buf`.
pub open spec fn at_pos<T>(r: Result<(T, nat), DeserializeError>, pos: usize) -> Result<
    (T, usize),
    DeserializeError,
> {
    match r {
        Ok((v, n)) => Ok((v, (pos + n) as usize)),
        Err(e) => Err(e),
    }
}

/// The bytes of `buf` from `pos` on.
pub open spec fn rest_of(buf: Seq<u8>, pos: usize) -> Seq<u8> {
    buf.subrange(pos as int, buf.len() as int)
}

proof fn lemma_parse_var_len(s: Seq<u8>, i: nat, acc: u64, max: nat)
    ensures
        parse_var_from(s, i, acc, max) matches Ok((_, n)) ==> i < n <= s.len() && n <= max,
    decreases max - i,
{
    if i < max && i < s.len() && s[i as int] >= 0x80 && i + 1 < max {
        lemma_parse_var_len(s, i + 1, var_step(acc, s[i as int], i), max);
    }
}

/// A parsed variable-length integer never reaches past the input.
pub proof fn lemma_parse_varint_len(s: Seq<u8>)
    ensures
        parse_varint(s) matches Ok((_, n)) ==> 1 <= n <= s.len() && n <= 5,
        parse_varlong(s) matches Ok((_, n)) ==> 1 <= n <= s.len() && n <= 10,
{
    lemma_parse_var_len(s, 0, 0, 5);
    lemma_parse_var_len(s, 0, 0, 10);
}

/// Reads a variable-length integer of at most `max` bytes at `buf[pos..]`.
fn read_var(buf: &[u8], pos: usize, max: usize) -> (r: Result<(u64, usize), DeserializeError>)
    requires
        pos <= buf@.len(),
        1 <= max <= 10,
    ensures
        r == at_pos(parse_var(rest_of(buf@, pos), max as nat), pos),
{
    let ghost s = rest_of(buf@, pos);
    let mut acc: u64 = 0;
    let mut i: usize = 0;
    loop
        invariant
            i < max,
            1 <= max <= 10,
            pos <= buf@.len(),
            s == rest_of(buf@, pos),
            parse_var(s, max as nat) == parse_var_from(s, i as nat, acc, max as nat),
        decreases max - i,
    {
        if i >= buf.len() - pos {
            return Err(DeserializeError::UnexpectedEof);
        }
        let b = buf[pos + i];
        assert(b == s[i as int]);
        acc = acc | (((b & 0x7f) as u64) << (7 * i) as u64);
        if b < 0x80 {
            return Ok((acc, pos + i + 1));
        }
        if i + 1 >= max {
            if i + 1 >= buf.len() - pos {
                return Err(DeserializeError::UnexpectedEof);
            }
            return Err(DeserializeError::VarIntTooLong);
        }
        i = i + 1;
    }
}

/// Number of seven-bit groups needed to write `v`.
fn var_len_exec(v: u64) -> (r: usize)
    ensures
        r as nat == var_len(v),
{
    if v >> 7u64 == 0 {
        1
    } else if v >> 14u64 == 0 {
        2
    } else if v >> 21u64 == 0 {
        3
    } else if v >> 28u64 == 0 {
        4
    } else if v >> 35u64 == 0 {
        5
    } else if v >> 42u64 == 0 {
        6
    } else if v >> 49u64 == 0 {
        7
    } else if v >> 56u64 == 0 {
        8
    } else if v >> 63u64 == 0 {
        9
    } else {
        10
    }
}

/// Appends the encoding of `v` to `out`.
fn write_var(v: u64, out: &mut Vec<u8>)
    ensures
        final(out)@ == old(out)@ + var_bytes(v),
{
    let n = var_len_exec(v);
    proof {
        lemma_var_len_bound(v);
    }
    let mut i: usize = 0;
    while i < n
        invariant
            n as nat == var_len(v),
            1 <= n <= 10,
            i <= n,
            out@ == old(out)@ + var_bytes(v).subrange(0, i as int),
        decreases n - i,
    {
        let g = ((v >> (7 * i) as u64) & 0x7f) as u8;
        let b = if i + 1 < n {
            g | 0x80
        } else {
            g
        };
        assert(b == var_byte(v, i as nat, n as nat));
        out.push(b);
        assert(var_bytes(v).subrange(0, i + 1) =~= var_bytes(v).subrange(0, i as int).push(b));
        i = i + 1;
    }
    assert(var_bytes(v).subrange(0, n as int) =~= var_bytes(v));
}

impl VarInt {
    /// Number of bytes this value takes on the wire.
    pub open spec fn spec_len(&self) -> nat {
        var_len(self.0 as u32 as u64)
    }

    /// Number of bytes this value takes on the wire.
    #[allow(clippy::len_without_is_empty)]
    pub fn len(&self) -> (r: usize)
        ensures
            r as nat == self.spec_len(),
            1 <= r <= 5,
    {
        proof {
            lemma_varint_len_matches(self.0);
        }
        if 0 <= self.0 && self.0 <= 127 {
            1
        } else if 128 <= self.0 && self.0 <= 16383 {
            2
        } else if 16384 <= self.0 && self.0 <= 2097151 {
            3
        } else if 2097152 <= self.0 && self.0 <= 268435455 {
            4
        } else {
            5
        }
    }

    /// Appends the encoding of this value to `buf`.
    pub fn serialize(&self, buf: &mut Vec<u8>)
        ensures
            final(buf)@ == old(buf)@ + varint_bytes(self.0),
    {
        write_var(self.0 as u32 as u64, buf);
    }

    /// Reads a value at `buf[pos..]`: the value and the position after it.
    pub fn deserialize(buf: &[u8], pos: usize) -> (r: Result<(VarInt, usize), DeserializeError>)
        requires
            pos <= buf@.len(),
        ensures
            match r {
                Ok((v, p)) => at_pos(parse_varint(rest_of(buf@, pos)), pos) == Ok::<
                    (i32, usize),
                    DeserializeError,
                >((v.0, p)),
                Err(e) => at_pos(parse_varint(rest_of(buf@, pos)), pos) == Err::<
                    (i32, usize),
                    DeserializeError,
                >(e),
            },
    {
        match read_var(buf, pos, VARINT_MAX_BYTES) {
            Ok((v, p)) => Ok((VarInt(v as u32 as i32), p)),
            Err(e) => Err(e),
        }
    }
}

impl VarLong {
    /// Appends the encoding of this value to `buf`.
    pub fn serialize(&self, buf: &mut Vec<u8>)
        ensures
            final(buf)@ == old(buf)@ + varlong_bytes(self.0),
    {
        write_var(self.0 as u64, buf);
    }

    /// Reads a value at `buf[pos..]`: the value and the position after it.
    pub fn deserialize(buf: &[u8], pos: usize) -> (r: Result<(VarLong, usize), DeserializeError>)
        requires
            pos <= buf@.len(),
        ensures
            match r {
                Ok((v, p)) => at_pos(parse_varlong(rest_of(buf@, pos)), pos) == Ok::<
                    (i64, usize),
                    DeserializeError,
                >((v.0, p)),
                Err(e) => at_pos(parse_varlong(rest_of(buf@, pos)), pos) == Err::<
                    (i64, usize),
                    DeserializeError,
                >(e),
            },
    {
        match read_var(buf, pos, VARLONG_MAX_BYTES) {
            Ok((v, p)) => Ok((VarLong(v as i64), p)),
            Err(e) => Err(e),
        }
    }
}

proof fn lemma_varint_len_matches(x: i32)
    ensures
        var_len(x as u32 as u64) == (if 0 <= x <= 127 {
            1nat
        } else if 128 <= x <= 16383 {
            2nat
        } else if 16384 <= x <= 2097151 {
            3nat
        } else if 2097152 <= x <= 268435455 {
            4nat
        } else {
            5nat
        }),
{
    let w = x as u32 as u64;
    let u = x as u32;
    assert(w == u as u64);
    assert((w >> 7u64 == 0) == (u < 128)) by (bit_vector)
        requires
            w == u as u64,
    ;
    assert((w >> 14u64 == 0) == (u < 16384)) by (bit_vector)
        requires
            w == u as u64,
    ;
    assert((w >> 21u64 == 0) == (u < 2097152)) by (bit_vector)
        requires
            w == u as u64,
    ;
    assert((w >> 28u64 == 0) == (u < 268435456)) by (bit_vector)
        requires
            w == u as u64,
    ;
    assert(w >> 35u64 == 0) by (bit_vector)
        requires
            w == u as u64,
    ;
    assert(x >= 0 ==> u == x) by (bit_vector)
        requires
            u == x as u32,
    ;
    assert(x < 0 ==> u >= 0x8000_0000) by (bit_vector)
        requires
            u == x as u32,
    ;
}

impl From<i32> for VarInt {
    fn from(i: i32) -> (r: VarInt)
        ensures
            r.0 == i,
    {
        VarInt(i)
    }
}

impl vstd::std_specs::convert::FromSpecImpl<i32> for VarInt {
    open spec fn obeys_from_spec() -> bool {
        true
    }

    open spec fn from_spec(i: i32) -> VarInt {
        VarInt(i)
    }
}

impl From<i64> for VarLong {
    fn from(i: i64) -> (r: VarLong)
        ensures
            r.0 == i,
    {
        VarLong(i)
    }
}

impl vstd::std_specs::convert::FromSpecImpl<i64> for VarLong {
    open spec fn obeys_from_spec() -> bool {
        true
    }

    open spec fn from_spec(i: i64) -> VarLong {
        VarLong(i)
    }
}

} // verus!

verus! {

proof fn lemma_parse_var_from_take(s: Seq<u8>, m: nat, i: nat, acc: u64, max: nat)
    requires
        m <= s.len(),
        m == s.len() || m > max,
    ensures
        parse_var_from(s.subrange(0, m as int), i, acc, max) == parse_var_from(s, i, acc, max),
    decreases max - i,
{
    let t = s.subrange(0, m as int);
    if i < max && i < m {
        assert(t[i as int] == s[i as int]);
        lemma_parse_var_from_take(s, m, i + 1, var_step(acc, s[i as int], i), max);
    }
}

/// A `VarInt` is read from at most its first six bytes: five groups, and the
/// byte after them that tells an overlong value from a short input.
pub proof fn lemma_parse_var_take(s: Seq<u8>, m: nat)
    requires
        m <= s.len(),
        m == s.len() || m >= 6,
    ensures
        parse_varint(s.subrange(0, m as int)) == parse_varint(s),
{
    lemma_parse_var_from_take(s, m, 0, 0, 5);
}

} // verus!
