//! The legacy server list ping: a fixed three-byte probe, and a reply of
//! NUL-separated fields in UTF-16BE after a `0xFF` tag and a unit count.
use vstd::prelude::*;
use vstd::string::{StrSliceExecFns, StringExecFns};

use crate::error::{DeserializeError, SerializeError};

verus! {

/// The probe an old client sends.
#[derive(Debug, Clone, Copy, PartialEq, Eq, Structural)]
pub struct LegacyRequest;

/// The server's answer to the probe.
#[derive(Debug, Clone)]
pub struct LegacyResponse {
    pub protocol_version: i32,
    pub minecraft_version: String,
    pub motd: String,
    pub player_count: i32,
    pub max_players: i32,
}

/// The bytes of the probe.
pub open spec fn legacy_probe() -> Seq<u8> {
    seq![0xfeu8, 0x01u8, 0xfau8]
}

impl LegacyRequest {
    /// The probe's bytes.
    pub fn serialize(&self) -> (r: Result<Vec<u8>, SerializeError>)
        ensures
            r matches Ok(v) && v@ == legacy_probe(),
    {
        let v = vec![0xfeu8, 0x01u8, 0xfau8];
        assert(v@ =~= legacy_probe());
        Ok(v)
    }

    /// Reads the probe at the front of `b`: more bytes are needed while fewer
    /// than three are there, and any other three bytes are not the probe.
    pub fn deserialize(b: &[u8]) -> (r: Result<LegacyRequest, DeserializeError>)
        ensures
            b@.len() < 3 ==> (r matches Err(e) && e is UnexpectedEof),
            b@.len() >= 3 && b@.subrange(0, 3) == legacy_probe() ==> r is Ok,
            b@.len() >= 3 && b@.subrange(0, 3) != legacy_probe() ==> (r matches Err(e) && e is BrokenPacket),
    {
        if b.len() < 3 {
            Err(DeserializeError::UnexpectedEof)
        } else if b[0] == 0xfe && b[1] == 0x01 && b[2] == 0xfa {
            assert(b@.subrange(0, 3) =~= legacy_probe());
            Ok(LegacyRequest)
        } else {
            assert(b@.subrange(0, 3) != legacy_probe()) by {
                if b@.subrange(0, 3) == legacy_probe() {
                    assert(b@.subrange(0, 3)[0] == b@[0]);
                    assert(b@.subrange(0, 3)[1] == b@[1]);
                    assert(b@.subrange(0, 3)[2] == b@[2]);
                }
            }
            Err(DeserializeError::BrokenPacket)
        }
    }
}

/// The UTF-16 code units of one character.
pub open spec fn utf16_char(c: char) -> Seq<u16> {
    if (c as u32) < 0x10000 {
        seq![c as u16]
    } else {
        let v = (c as u32 - 0x10000) as u32;
        seq![(0xd800 + (v >> 10u32)) as u16, (0xdc00 + (v & 0x3ff)) as u16]
    }
}

/// The UTF-16 code units of `cs`.
pub open spec fn utf16_of(cs: Seq<char>) -> Seq<u16>
    decreases cs.len(),
{
    if cs.len() == 0 {
        seq![]
    } else {
        utf16_char(cs[0]) + utf16_of(cs.drop_first())
    }
}

/// The characters that the UTF-16 code units `units` encode, if they are
/// well-formed UTF-16: units outside `0xD800..=0xDFFF` stand for themselves, a
/// high surrogate followed by a low one for a character above `U+FFFF`, and
/// any other surrogate makes the units ill-formed.
pub open spec fn utf16_decoded(units: Seq<u16>) -> Option<Seq<char>>
    decreases units.len(),
{
    if units.len() == 0 {
        Some(seq![])
    } else {
        let u = units[0];
        if u < 0xd800 || u > 0xdfff {
            match utf16_decoded(units.drop_first()) {
                Some(rest) => Some(seq![u as u32 as char] + rest),
                None => None,
            }
        } else if u <= 0xdbff && units.len() >= 2 && 0xdc00 <= units[1] <= 0xdfff {
            let c = (0x10000 + (u as u32 - 0xd800) * 0x400 + (units[1] as u32 - 0xdc00)) as u32;
            match utf16_decoded(units.subrange(2, units.len() as int)) {
                Some(rest) => Some(seq![c as char] + rest),
                None => None,
            }
        } else {
            None
        }
    }
}

/// Relies on `str::encode_utf16`, which writes each character as one code
/// unit below `U+10000` and as a surrogate pair above.
#[verifier::external_body]
fn encode_utf16(s: &str) -> (r: Vec<u16>)
    ensures
        r@ == utf16_of(s@),
{
    s.encode_utf16().collect()
}

/// Relies on `String::from_utf16`, which decodes surrogate pairs and fails on
/// unpaired surrogates.
#[verifier::external_body]
fn decode_utf16(units: &[u16]) -> (r: Option<String>)
    ensures
        match r {
            Some(s) => utf16_decoded(units@) == Some(s@),
            None => utf16_decoded(units@) is None,
        },
{
    String::from_utf16(units).ok()
}

/// The decimal digits of `n`.
pub open spec fn digits_of(n: nat) -> Seq<char>
    decreases n,
{
    if n < 10 {
        seq![(n + 48) as char]
    } else {
        digits_of(n / 10).push(((n % 10) + 48) as char)
    }
}

/// The decimal text of `v`, with a minus sign when it is negative.
pub open spec fn decimal_of(v: int) -> Seq<char> {
    if v < 0 {
        seq!['-'] + digits_of((-v) as nat)
    } else {
        digits_of(v as nat)
    }
}

/// Relies on `ToString` of `i32`, which writes the decimal text.
#[verifier::external_body]
fn i32_to_decimal(v: i32) -> (r: String)
    ensures
        r@ == decimal_of(v as int),
{
    v.to_string()
}

/// The value of a run of ASCII decimal digits.
pub open spec fn digits_value(s: Seq<char>) -> int
    decreases s.len(),
{
    if s.len() == 0 {
        0
    } else {
        digits_value(s.drop_last()) * 10 + (s.last() as int - 48)
    }
}

/// Whether every character of `s` is an ASCII decimal digit.
pub open spec fn all_digits(s: Seq<char>) -> bool {
    forall|i: int| 0 <= i < s.len() ==> '0' <= #[trigger] s[i] <= '9'
}

/// What `str::parse::<i32>` reads from `s`: an optional sign, then at least one
/// decimal digit, for a value in the range of `i32`.
pub open spec fn parsed_i32(s: Seq<char>) -> Option<i32> {
    let (neg, d) = if s.len() > 0 && s[0] == '-' {
        (true, s.drop_first())
    } else if s.len() > 0 && s[0] == '+' {
        (false, s.drop_first())
    } else {
        (false, s)
    };
    let v = if neg {
        -digits_value(d)
    } else {
        digits_value(d)
    };
    if d.len() > 0 && all_digits(d) && i32::MIN <= v <= i32::MAX {
        Some(v as i32)
    } else {
        None
    }
}

/// Relies on `str::parse::<i32>`, which reads an optional sign and decimal
/// digits and refuses values out of range.
#[verifier::external_body]
fn parse_i32(s: &str) -> (r: Option<i32>)
    ensures
        r == parsed_i32(s@),
{
    s.parse::<i32>().ok()
}

/// The fields of `cs` between NUL characters.
pub open spec fn split_nul(cs: Seq<char>) -> Seq<Seq<char>>
    decreases cs.len(),
{
    if cs.len() == 0 {
        seq![seq![]]
    } else {
        let parts = split_nul(cs.drop_last());
        if cs.last() == '\0' {
            parts.push(seq![])
        } else {
            parts.update(parts.len() - 1, parts.last().push(cs.last()))
        }
    }
}

proof fn lemma_split_nul_len(cs: Seq<char>)
    ensures
        split_nul(cs).len() >= 1,
    decreases cs.len(),
{
    if cs.len() > 0 {
        lemma_split_nul_len(cs.drop_last());
    }
}

/// The text of the reply: the protocol marker, then the fields, NUL between them.
pub open spec fn legacy_text(r: LegacyResponse) -> Seq<char> {
    "§1"@ + seq!['\0'] + decimal_of(r.protocol_version as int) + seq!['\0'] + r.minecraft_version@
        + seq!['\0'] + r.motd@ + seq!['\0'] + decimal_of(r.player_count as int) + seq!['\0']
        + decimal_of(r.max_players as int)
}

/// Big-endian bytes of UTF-16 code units.
pub open spec fn units_be(units: Seq<u16>) -> Seq<u8>
    decreases units.len(),
{
    if units.len() == 0 {
        seq![]
    } else {
        units_be(units.drop_last()) + seq![(units.last() >> 8u16) as u8, units.last() as u8]
    }
}

/// The reply's bytes for the code units `units`.
pub open spec fn legacy_reply(units: Seq<u16>) -> Seq<u8> {
    seq![0xffu8, (units.len() / 256) as u8, (units.len() % 256) as u8] + units_be(units)
}

/// The code units of the reply at the front of `b`, or why there are none.
pub open spec fn legacy_units(b: Seq<u8>) -> Result<Seq<u16>, DeserializeError> {
    if b.len() < 1 {
        Err(DeserializeError::UnexpectedEof)
    } else if b[0] != 0xff {
        Err(DeserializeError::BrokenPacket)
    } else if b.len() < 3 {
        Err(DeserializeError::UnexpectedEof)
    } else {
        let n = b[1] as int * 256 + b[2] as int;
        if b.len() - 3 < 2 * n {
            Err(DeserializeError::UnexpectedEof)
        } else {
            Ok(Seq::new(n as nat, |i: int| ((b[3 + 2 * i] as int) * 256 + (b[4 + 2 * i] as int)) as u16))
        }
    }
}

/// The fields a reply's text gives: protocol version, game version, message
/// of the day, player count and player limit.
pub open spec fn legacy_fields(text: Seq<char>) -> Option<(i32, Seq<char>, Seq<char>, i32, i32)> {
    let f = split_nul(text);
    if f.len() < 6 {
        None
    } else {
        match (parsed_i32(f[1]), parsed_i32(f[4]), parsed_i32(f[5])) {
            (Some(pv), Some(pc), Some(max)) => Some((pv, f[2], f[3], pc, max)),
            _ => None,
        }
    }
}

fn push_nul(s: &mut String)
    ensures
        final(s)@ == old(s)@ + seq!['\0'],
{
    proof {
        reveal_strlit("\0");
    }
    s.append("\0");
}

/// The first `n` fields of `s` between NUL characters, if it has that many.
fn split_fields(s: &str, n: usize) -> (r: Option<Vec<String>>)
    ensures
        match r {
            Some(v) => v@.len() == n && split_nul(s@).len() >= n && forall|i: int|
                0 <= i < n ==> #[trigger] v@[i]@ == split_nul(s@)[i],
            None => split_nul(s@).len() < n,
        },
{
    let len = s.unicode_len();
    let mut fields: Vec<String> = Vec::new();
    let mut start: usize = 0;
    let mut i: usize = 0;
    while i < len
        invariant
            len == s@.len(),
            start <= i <= len,
            split_nul(s@.subrange(0, i as int)).len() == fields@.len() + 1,
            split_nul(s@.subrange(0, i as int)).last() == s@.subrange(start as int, i as int),
            forall|j: int|
                0 <= j < fields@.len() ==> #[trigger] fields@[j]@ == split_nul(
                    s@.subrange(0, i as int),
                )[j],
        decreases len - i,
    {
        let c = s.get_char(i);
        let ghost prev = s@.subrange(0, i as int);
        let ghost next = s@.subrange(0, i + 1);
        assert(next.drop_last() =~= prev);
        assert(next.last() == c);
        if c == '\0' {
            let field = String::from_str(s.substring_char(start, i));
            fields.push(field);
            start = i + 1;
            assert(s@.subrange(start as int, i + 1) =~= Seq::<char>::empty());
        } else {
            assert(s@.subrange(start as int, i + 1) =~= s@.subrange(start as int, i as int).push(c));
        }
        i = i + 1;
    }
    assert(s@.subrange(0, len as int) =~= s@);
    let last = String::from_str(s.substring_char(start, len));
    fields.push(last);
    if fields.len() < n {
        return None;
    }
    let mut out: Vec<String> = Vec::new();
    let mut k: usize = 0;
    while k < n
        invariant
            k <= n <= fields@.len(),
            fields@.len() == split_nul(s@).len(),
            forall|j: int| 0 <= j < fields@.len() ==> #[trigger] fields@[j]@ == split_nul(s@)[j],
            out@.len() == k,
            forall|j: int| 0 <= j < k ==> #[trigger] out@[j]@ == split_nul(s@)[j],
        decreases n - k,
    {
        out.push(fields[k].clone());
        k = k + 1;
    }
    Some(out)
}

impl LegacyResponse {
    /// The reply's bytes: `0xFF`, the number of UTF-16 code units, then the
    /// text in UTF-16BE. Fails when the text has more code units than the
    /// count can state.
    pub fn serialize(&self) -> (r: Result<Vec<u8>, SerializeError>)
        ensures
            match r {
                Ok(v) => utf16_of(legacy_text(*self)).len() <= 0xffff && v@ == legacy_reply(
                    utf16_of(legacy_text(*self)),
                ),
                Err(e) => utf16_of(legacy_text(*self)).len() > 0xffff && e is FrameTooLong,
            },
    {
        proof {
            reveal_strlit("§1");
        }
        let mut data = String::from_str("§1");
        push_nul(&mut data);
        let pv = i32_to_decimal(self.protocol_version);
        data.append(pv.as_str());
        push_nul(&mut data);
        data.append(self.minecraft_version.as_str());
        push_nul(&mut data);
        data.append(self.motd.as_str());
        push_nul(&mut data);
        let pc = i32_to_decimal(self.player_count);
        data.append(pc.as_str());
        push_nul(&mut data);
        let max = i32_to_decimal(self.max_players);
        data.append(max.as_str());
        assert(data@ =~= legacy_text(*self));
        let units = encode_utf16(data.as_str());
        if units.len() > 0xffff {
            return Err(SerializeError::FrameTooLong);
        }
        let n = units.len();
        let mut out: Vec<u8> = Vec::new();
        out.push(0xff);
        out.push((n / 256) as u8);
        out.push((n % 256) as u8);
        let mut i: usize = 0;
        while i < n
            invariant
                n == units@.len(),
                n <= 0xffff,
                i <= n,
                out@ == seq![0xffu8, (n / 256) as u8, (n % 256) as u8] + units_be(units@.subrange(0, i as int)),
            decreases n - i,
        {
            let u = units[i];
            out.push((u >> 8u16) as u8);
            out.push(u as u8);
            assert(units@.subrange(0, i + 1).drop_last() =~= units@.subrange(0, i as int));
            assert(out@ =~= seq![0xffu8, (n / 256) as u8, (n % 256) as u8] + units_be(units@.subrange(0, i + 1)));
            i = i + 1;
        }
        assert(units@.subrange(0, n as int) =~= units@);
        Ok(out)
    }

    /// Reads a reply from `b`: more bytes are needed while its units are not
    /// all there; the text must be well-formed UTF-16 and hold the five
    /// fields, the numbers in decimal.
    pub fn deserialize(b: &[u8]) -> (r: Result<LegacyResponse, DeserializeError>)
        ensures
            match legacy_units(b@) {
                Err(e) => r == Err::<LegacyResponse, DeserializeError>(e),
                Ok(units) => match utf16_decoded(units) {
                    None => r matches Err(e) && e is InvalidUtf16,
                    Some(text) => match legacy_fields(text) {
                        None => r matches Err(e) && e is BrokenPacket,
                        Some((pv, version, motd, pc, max)) => r matches Ok(resp) && resp.protocol_version
                            == pv && resp.minecraft_version@ == version && resp.motd@ == motd
                            && resp.player_count == pc && resp.max_players == max,
                    },
                },
            },
    {
        if b.len() < 1 {
            return Err(DeserializeError::UnexpectedEof);
        }
        if b[0] != 0xff {
            return Err(DeserializeError::BrokenPacket);
        }
        if b.len() < 3 {
            return Err(DeserializeError::UnexpectedEof);
        }
        let n = (b[1] as usize) * 256 + (b[2] as usize);
        if (b.len() - 3) / 2 < n {
            return Err(DeserializeError::UnexpectedEof);
        }
        let ghost expected = Seq::new(
            n as nat,
            |i: int| ((b@[3 + 2 * i] as int) * 256 + (b@[4 + 2 * i] as int)) as u16,
        );
        let blen = b.len();
        let mut units: Vec<u16> = Vec::new();
        let mut i: usize = 0;
        while i < n
            invariant
                blen == b@.len(),
                3 + 2 * n <= b@.len(),
                expected.len() == n,
                forall|j: int|
                    0 <= j < n ==> #[trigger] expected[j] == ((b@[3 + 2 * j] as int) * 256 + (b@[4 + 2
                        * j] as int)) as u16,
                i <= n,
                units@ =~= expected.subrange(0, i as int),
            decreases n - i,
        {
            let u = (b[3 + 2 * i] as u16) * 256 + (b[4 + 2 * i] as u16);
            units.push(u);
            i = i + 1;
        }
        assert(units@ =~= expected);
        let text = match decode_utf16(units.as_slice()) {
            Some(t) => t,
            None => {
                return Err(DeserializeError::InvalidUtf16);
            },
        };
        let fields = match split_fields(text.as_str(), 6) {
            Some(f) => f,
            None => {
                return Err(DeserializeError::BrokenPacket);
            },
        };
        let protocol_version = match parse_i32(fields[1].as_str()) {
            Some(v) => v,
            None => {
                return Err(DeserializeError::BrokenPacket);
            },
        };
        let player_count = match parse_i32(fields[4].as_str()) {
            Some(v) => v,
            None => {
                return Err(DeserializeError::BrokenPacket);
            },
        };
        let max_players = match parse_i32(fields[5].as_str()) {
            Some(v) => v,
            None => {
                return Err(DeserializeError::BrokenPacket);
            },
        };
        Ok(LegacyResponse {
            protocol_version,
            minecraft_version: fields[2].clone(),
            motd: fields[3].clone(),
            player_count,
            max_players,
        })
    }
}

} // verus!
