//! Packets in frames: the length prefix, the optional compression header and
//! zlib body, and the optional stream cipher over the whole frame.
use vstd::prelude::*;

use std::io::{Read, Write};

use crate::compound::{copy_range, put_bytes};
use crate::crypto::{
    cfb8_decrypt, cfb8_encrypt, lemma_decrypt_concat, lemma_decrypt_encrypt, lemma_decrypt_len,
    lemma_decrypt_prefix, lemma_encrypt_len, StreamDecryptor, StreamEncryptor,
};
use crate::error::{DeserializeError, SerializeError};
use crate::handshake::Handshake;
use crate::login::{Login, LoginModel};
use crate::play::{Play, PlayModel};
use crate::state::{Bound, State};
use crate::status::{Status, StatusModel};
use crate::types::Serialize;
use crate::varint::{
    lemma_parse_varint_len, lemma_parse_var_take, lemma_varint_prefix, lemma_varint_round_trip,
    parse_varint, rest_of, varint_bytes, VarInt,
};

verus! {

/// Whether frames carry a compression header, and from which inner length on
/// they are compressed.
#[derive(Debug, Clone, Copy, PartialEq, Eq, Structural)]
pub struct PacketCompression {
    pub enabled: bool,
    pub threshold: usize,
}

impl Default for PacketCompression {
    fn default() -> (r: PacketCompression)
        ensures
            r == (PacketCompression { enabled: false, threshold: 0 }),
    {
        PacketCompression { enabled: false, threshold: 0 }
    }
}

/// What zlib at the default level makes of `data`.
pub uninterp spec fn zlib_compressed(data: Seq<u8>) -> Seq<u8>;

/// What inflating the zlib stream at the front of `data` gives, if it is one.
pub uninterp spec fn zlib_decompressed(data: Seq<u8>) -> Option<Seq<u8>>;

/// Relies on `flate2::write::ZlibEncoder` at the default level writing into a
/// vector, which cannot fail; and on `flate2::read::ZlibDecoder`, which inflates
/// what the encoder wrote back to the input.
#[verifier::external_body]
fn zlib_compress(data: &[u8]) -> (r: Vec<u8>)
    ensures
        r@ == zlib_compressed(data@),
        zlib_decompressed(r@) == Some(data@),
{
    let mut encoder = flate2::write::ZlibEncoder::new(Vec::new(), flate2::Compression::default());
    match encoder.write_all(data) {
        Ok(()) => encoder.finish().unwrap_or_default(),
        Err(_) => Vec::new(),
    }
}

/// Relies on `flate2::read::ZlibDecoder`, read to its end: it fails on a
/// corrupt or cut-off stream.
#[verifier::external_body]
fn zlib_decompress(data: &[u8]) -> (r: Option<Vec<u8>>)
    ensures
        match r {
            Some(v) => zlib_decompressed(data@) == Some(v@),
            None => zlib_decompressed(data@) is None,
        },
{
    let mut out = Vec::new();
    match flate2::read::ZlibDecoder::new(data).read_to_end(&mut out) {
        Ok(_) => Some(out),
        Err(_) => None,
    }
}

/// Any packet, by connection state.
pub enum Protocol {
    Handshake(Handshake),
    Status(Status),
    Login(Login),
    Play(Play),
}

/// Packets as values.
pub enum ProtocolModel {
    Handshake(<Handshake as Serialize>::Model),
    Status(StatusModel),
    Login(LoginModel),
    Play(PlayModel),
}

impl Protocol {
    pub open spec fn model(&self) -> ProtocolModel {
        match self {
            Protocol::Handshake(p) => ProtocolModel::Handshake(p.model()),
            Protocol::Status(p) => ProtocolModel::Status(p.model()),
            Protocol::Login(p) => ProtocolModel::Login(p.model()),
            Protocol::Play(p) => ProtocolModel::Play(p.model()),
        }
    }

    /// The state in which `m` is sent.
    pub open spec fn spec_state(m: ProtocolModel) -> State {
        match m {
            ProtocolModel::Handshake(_) => State::Handshake,
            ProtocolModel::Status(_) => State::Status,
            ProtocolModel::Login(_) => State::Login,
            ProtocolModel::Play(_) => State::Play,
        }
    }

    /// The direction in which `m` travels.
    pub open spec fn spec_bound(m: ProtocolModel) -> Bound {
        match m {
            ProtocolModel::Handshake(_) => Bound::Serverbound,
            ProtocolModel::Status(p) => Status::spec_bound(p),
            ProtocolModel::Login(p) => Login::spec_bound(p),
            ProtocolModel::Play(p) => Play::spec_bound(p),
        }
    }

    /// The packet id of `m`.
    pub open spec fn spec_id(m: ProtocolModel) -> i32 {
        match m {
            ProtocolModel::Handshake(_) => 0,
            ProtocolModel::Status(p) => Status::spec_id(p),
            ProtocolModel::Login(p) => Login::spec_id(p),
            ProtocolModel::Play(p) => Play::spec_id(p),
        }
    }

    /// The body bytes of `m`.
    pub open spec fn spec_body(m: ProtocolModel) -> Seq<u8> {
        match m {
            ProtocolModel::Handshake(p) => <Handshake as Serialize>::encode(p),
            ProtocolModel::Status(p) => Status::spec_body(p),
            ProtocolModel::Login(p) => Login::spec_body(p),
            ProtocolModel::Play(p) => Play::spec_body(p),
        }
    }

    /// Packets whose fields the codec can write.
    pub open spec fn spec_valid(m: ProtocolModel) -> bool {
        match m {
            ProtocolModel::Handshake(p) => <Handshake as Serialize>::valid(p),
            ProtocolModel::Status(p) => Status::spec_valid(p),
            ProtocolModel::Login(p) => Login::spec_valid(p),
            ProtocolModel::Play(p) => Play::spec_valid(p),
        }
    }

    /// Whether some packet has `id` in direction `bound` and state `state`.
    pub open spec fn spec_known(bound: Bound, state: State, id: i32) -> bool {
        match state {
            State::Handshake => bound == Bound::Serverbound && id == 0,
            State::Status => Status::spec_known(bound, id),
            State::Login => Login::spec_known(bound, id),
            State::Play => Play::spec_known(bound, id),
        }
    }

    /// Reads the body of the packet with `id`, in direction `bound` and state `state`.
    pub open spec fn spec_parse(bound: Bound, state: State, id: i32, s: Seq<u8>) -> Result<
        (ProtocolModel, nat),
        DeserializeError,
    > {
        match state {
            State::Handshake => if bound == Bound::Serverbound && id == 0 {
                match <Handshake as Serialize>::parse(s) {
                    Ok((p, n)) => Ok((ProtocolModel::Handshake(p), n)),
                    Err(e) => Err(e),
                }
            } else {
                Err(DeserializeError::UnknownPacketId(bound, state, id))
            },
            State::Status => match Status::spec_parse(bound, id, s) {
                Ok((p, n)) => Ok((ProtocolModel::Status(p), n)),
                Err(e) => Err(e),
            },
            State::Login => match Login::spec_parse(bound, id, s) {
                Ok((p, n)) => Ok((ProtocolModel::Login(p), n)),
                Err(e) => Err(e),
            },
            State::Play => match Play::spec_parse(bound, id, s) {
                Ok((p, n)) => Ok((ProtocolModel::Play(p), n)),
                Err(e) => Err(e),
            },
        }
    }
}

/// The id followed by the body of `m`.
pub open spec fn inner_bytes(m: ProtocolModel) -> Seq<u8> {
    varint_bytes(Protocol::spec_id(m)) + Protocol::spec_body(m)
}

/// The payload of a frame whose inner bytes are `inner`.
pub open spec fn payload_bytes(c: PacketCompression, inner: Seq<u8>) -> Seq<u8> {
    if !c.enabled {
        inner
    } else if inner.len() >= c.threshold {
        varint_bytes(inner.len() as i32) + zlib_compressed(inner)
    } else {
        varint_bytes(0) + inner
    }
}

/// The frame whose inner bytes are `inner`: the payload's length, then the payload.
pub open spec fn frame_of(c: PacketCompression, inner: Seq<u8>) -> Seq<u8> {
    varint_bytes(payload_bytes(c, inner).len() as i32) + payload_bytes(c, inner)
}

/// The frame of `m`.
pub open spec fn frame_bytes(c: PacketCompression, m: ProtocolModel) -> Seq<u8> {
    frame_of(c, inner_bytes(m))
}

/// Whether the lengths of a frame with inner bytes `inner` fit their `VarInt`s.
pub open spec fn frame_fits(c: PacketCompression, inner: Seq<u8>) -> bool {
    inner.len() <= i32::MAX && payload_bytes(c, inner).len() <= i32::MAX
}

/// Whether inflating what zlib makes of `data` gives `data` back.
pub open spec fn zlib_round_trips(data: Seq<u8>) -> bool {
    zlib_decompressed(zlib_compressed(data)) == Some(data)
}

/// The bytes `e` makes of `bytes`: their encryption, or themselves without a cipher.
pub open spec fn encrypted(e: Option<StreamEncryptor>, bytes: Seq<u8>) -> Seq<u8> {
    match e {
        Some(e) => cfb8_encrypt(e.key(), e.history(), bytes),
        None => bytes,
    }
}

/// The plaintext `d` makes of `bytes`: their decryption, or themselves without a cipher.
pub open spec fn decrypted(d: Option<StreamDecryptor>, bytes: Seq<u8>) -> Seq<u8> {
    match d {
        Some(d) => cfb8_decrypt(d.key(), d.history(), bytes),
        None => bytes,
    }
}

/// `e1` is `e0` after it has put out `out`.
pub open spec fn enc_advanced(e0: Option<StreamEncryptor>, e1: Option<StreamEncryptor>, out: Seq<u8>) -> bool {
    match (e0, e1) {
        (Some(a), Some(b)) => b.key() == a.key() && b.history() == a.history() + out,
        (None, None) => true,
        _ => false,
    }
}

/// `d1` is `d0` after it has taken in `taken`.
pub open spec fn dec_advanced(d0: Option<StreamDecryptor>, d1: Option<StreamDecryptor>, taken: Seq<u8>) -> bool {
    match (d0, d1) {
        (Some(a), Some(b)) => b.key() == a.key() && b.history() == a.history() + taken,
        (None, None) => true,
        _ => false,
    }
}

/// Where the frame at the front of `plain` lies: the length of its prefix and
/// of its payload; or why there is none yet.
pub open spec fn frame_extent(plain: Seq<u8>) -> Result<(nat, nat), DeserializeError> {
    match parse_varint(plain) {
        Err(e) => Err(e),
        Ok((l, k)) => if l < 0 {
            Err(DeserializeError::BrokenPacket)
        } else if plain.len() - k < l {
            Err(DeserializeError::UnexpectedEof)
        } else {
            Ok((k, l as nat))
        },
    }
}

/// How many bytes decoding takes from the front of `plain`: the whole frame
/// once it is all there, else nothing.
pub open spec fn frame_consumed(plain: Seq<u8>) -> nat {
    match frame_extent(plain) {
        Ok((k, l)) => k + l,
        Err(_) => 0,
    }
}

/// An error inside a frame whose length is known: running out there is a broken packet.
pub open spec fn within_frame(e: DeserializeError) -> DeserializeError {
    match e {
        DeserializeError::UnexpectedEof => DeserializeError::BrokenPacket,
        _ => e,
    }
}

/// The packet in the inner bytes `inner`: an id, then a body that must end with them.
pub open spec fn decode_inner(bound: Bound, state: State, inner: Seq<u8>) -> Result<
    ProtocolModel,
    DeserializeError,
> {
    match parse_varint(inner) {
        Err(e) => Err(within_frame(e)),
        Ok((id, k)) => match Protocol::spec_parse(bound, state, id, inner.subrange(k as int, inner.len() as int)) {
            Err(e) => Err(within_frame(e)),
            Ok((m, n)) => if k + n == inner.len() {
                Ok(m)
            } else {
                Err(DeserializeError::BrokenPacket)
            },
        },
    }
}

/// The packet in a frame's payload.
pub open spec fn decode_payload(bound: Bound, state: State, c: PacketCompression, payload: Seq<u8>) -> Result<
    ProtocolModel,
    DeserializeError,
> {
    if !c.enabled {
        decode_inner(bound, state, payload)
    } else {
        match parse_varint(payload) {
            Err(e) => Err(within_frame(e)),
            Ok((dl, k)) => {
                let rest = payload.subrange(k as int, payload.len() as int);
                if dl == 0 {
                    decode_inner(bound, state, rest)
                } else {
                    match zlib_decompressed(rest) {
                        Some(inner) => decode_inner(bound, state, inner),
                        None => Err(DeserializeError::ZlibError),
                    }
                }
            },
        }
    }
}

/// The packet in the frame at the front of the plaintext `plain`.
pub open spec fn decode_frame(bound: Bound, state: State, c: PacketCompression, plain: Seq<u8>) -> Result<
    ProtocolModel,
    DeserializeError,
> {
    match frame_extent(plain) {
        Err(e) => Err(e),
        Ok((k, l)) => decode_payload(bound, state, c, plain.subrange(k as int, (k + l) as int)),
    }
}

/// `r` is the exec form of the decoding result `s`.
pub open spec fn decoded(r: Result<Protocol, DeserializeError>, s: Result<ProtocolModel, DeserializeError>) -> bool {
    match r {
        Ok(p) => s == Ok::<ProtocolModel, DeserializeError>(p.model()),
        Err(e) => s == Err::<ProtocolModel, DeserializeError>(e),
    }
}

fn within_frame_exec(e: DeserializeError) -> (r: DeserializeError)
    ensures
        r == within_frame(e),
{
    match e {
        DeserializeError::UnexpectedEof => DeserializeError::BrokenPacket,
        _ => e,
    }
}

impl Protocol {
    /// The packet id of this packet.
    pub fn id(&self) -> (r: i32)
        ensures
            r == Self::spec_id(self.model()),
    {
        match self {
            Protocol::Handshake(_) => 0,
            Protocol::Status(p) => p.id(),
            Protocol::Login(p) => p.id(),
            Protocol::Play(p) => p.id(),
        }
    }

    fn serialize_body(&self, buf: &mut Vec<u8>)
        requires
            Self::spec_valid(self.model()),
        ensures
            final(buf)@ == old(buf)@ + Self::spec_body(self.model()),
    {
        match self {
            Protocol::Handshake(p) => p.serialize(buf),
            Protocol::Status(p) => p.serialize_body(buf),
            Protocol::Login(p) => p.serialize_body(buf),
            Protocol::Play(p) => p.serialize_body(buf),
        }
    }

    /// Reads at `buf[pos..]` the body of the packet with `id`, in direction
    /// `bound` and state `state`: the packet and the position after it.
    fn dispatch(bound: Bound, state: State, id: i32, buf: &[u8], pos: usize) -> (r: Result<
        (Protocol, usize),
        DeserializeError,
    >)
        requires
            pos <= buf@.len(),
        ensures
            match r {
                Ok((p, q)) => pos <= q <= buf@.len() && Self::spec_parse(bound, state, id, rest_of(buf@, pos))
                    == Ok::<(ProtocolModel, nat), DeserializeError>((p.model(), (q - pos) as nat)),
                Err(e) => Self::spec_parse(bound, state, id, rest_of(buf@, pos)) == Err::<
                    (ProtocolModel, nat),
                    DeserializeError,
                >(e),
            },
    {
        match state {
            State::Handshake => if bound == Bound::Serverbound && id == 0 {
                match <Handshake as Serialize>::deserialize(buf, pos) {
                    Ok((p, q)) => Ok((Protocol::Handshake(p), q)),
                    Err(e) => Err(e),
                }
            } else {
                Err(DeserializeError::UnknownPacketId(bound, state, id))
            },
            State::Status => match Status::deserialize(bound, id, buf, pos) {
                Ok((p, q)) => Ok((Protocol::Status(p), q)),
                Err(e) => Err(e),
            },
            State::Login => match Login::deserialize(bound, id, buf, pos) {
                Ok((p, q)) => Ok((Protocol::Login(p), q)),
                Err(e) => Err(e),
            },
            State::Play => match Play::deserialize(bound, id, buf, pos) {
                Ok((p, q)) => Ok((Protocol::Play(p), q)),
                Err(e) => Err(e),
            },
        }
    }

    /// Writes this packet as one frame: with `compression`'s header and, when
    /// the inner bytes reach the threshold, zlib; then through the encryptor,
    /// if there is one, which advances by the frame's length. Fails only when a
    /// length does not fit its `VarInt`.
    pub fn serialize(&self, compression: PacketCompression, encryptor: &mut Option<StreamEncryptor>) -> (r: Result<
        Vec<u8>,
        SerializeError,
    >)
        requires
            Self::spec_valid(self.model()),
        ensures
            match r {
                Ok(out) => {
                    &&& frame_fits(compression, inner_bytes(self.model()))
                    &&& out@ == encrypted(*old(encryptor), frame_bytes(compression, self.model()))
                    &&& enc_advanced(*old(encryptor), *final(encryptor), out@)
                    &&& (compression.enabled && inner_bytes(self.model()).len() >= compression.threshold)
                        ==> zlib_round_trips(inner_bytes(self.model()))
                },
                Err(e) => {
                    &&& !frame_fits(compression, inner_bytes(self.model()))
                    &&& e is FrameTooLong
                    &&& enc_advanced(*old(encryptor), *final(encryptor), Seq::empty())
                },
            },
    {
        let ghost m = self.model();
        let ghost e0 = *encryptor;
        let mut inner: Vec<u8> = Vec::new();
        VarInt(self.id()).serialize(&mut inner);
        self.serialize_body(&mut inner);
        assert(inner@ =~= inner_bytes(m));
        if inner.len() > 0x7fff_ffff {
            proof {
                assert(enc_advanced(e0, e0, Seq::empty())) by {
                    if let Some(e) = e0 {
                        assert(e.history() + Seq::<u8>::empty() =~= e.history());
                    }
                }
            }
            return Err(SerializeError::FrameTooLong);
        }
        let mut payload: Vec<u8> = Vec::new();
        if compression.enabled {
            if inner.len() >= compression.threshold {
                VarInt(inner.len() as i32).serialize(&mut payload);
                let z = zlib_compress(inner.as_slice());
                put_bytes(&mut payload, z.as_slice());
            } else {
                VarInt(0).serialize(&mut payload);
                put_bytes(&mut payload, inner.as_slice());
            }
        } else {
            payload = inner;
        }
        assert(payload@ =~= payload_bytes(compression, inner_bytes(m)));
        if payload.len() > 0x7fff_ffff {
            proof {
                assert(enc_advanced(e0, e0, Seq::empty())) by {
                    if let Some(e) = e0 {
                        assert(e.history() + Seq::<u8>::empty() =~= e.history());
                    }
                }
            }
            return Err(SerializeError::FrameTooLong);
        }
        let mut frame: Vec<u8> = Vec::new();
        VarInt(payload.len() as i32).serialize(&mut frame);
        put_bytes(&mut frame, payload.as_slice());
        assert(frame@ =~= frame_bytes(compression, m));
        match encryptor {
            Some(e) => {
                let out = e.encrypt(frame.as_slice());
                Ok(out)
            },
            None => Ok(frame),
        }
    }

    /// Reads the inner bytes of a frame.
    fn decode_inner(bound: Bound, state: State, inner: &[u8]) -> (r: Result<Protocol, DeserializeError>)
        ensures
            decoded(r, decode_inner(bound, state, inner@)),
    {
        let len = inner.len();
        proof {
            lemma_parse_varint_len(inner@);
            assert(rest_of(inner@, 0) =~= inner@);
        }
        match VarInt::deserialize(inner, 0) {
            Err(e) => Err(within_frame_exec(e)),
            Ok((id, k)) => {
                assert(rest_of(inner@, k) =~= inner@.subrange(k as int, inner@.len() as int));
                match Self::dispatch(bound, state, id.0, inner, k) {
                    Err(e) => Err(within_frame_exec(e)),
                    Ok((p, q)) => if q == len {
                        Ok(p)
                    } else {
                        Err(DeserializeError::BrokenPacket)
                    },
                }
            },
        }
    }

    /// Reads a frame's payload.
    fn decode_payload(bound: Bound, state: State, c: PacketCompression, payload: &[u8]) -> (r: Result<
        Protocol,
        DeserializeError,
    >)
        ensures
            decoded(r, decode_payload(bound, state, c, payload@)),
    {
        if !c.enabled {
            return Self::decode_inner(bound, state, payload);
        }
        proof {
            lemma_parse_varint_len(payload@);
            assert(rest_of(payload@, 0) =~= payload@);
        }
        match VarInt::deserialize(payload, 0) {
            Err(e) => Err(within_frame_exec(e)),
            Ok((dl, k)) => {
                let rest = copy_range(payload, k, payload.len());
                if dl.0 == 0 {
                    Self::decode_inner(bound, state, rest.as_slice())
                } else {
                    match zlib_decompress(rest.as_slice()) {
                        Some(inner) => Self::decode_inner(bound, state, inner.as_slice()),
                        None => Err(DeserializeError::ZlibError),
                    }
                }
            },
        }
    }

    /// Reads one frame from the front of `packet`, in direction `bound` and state
    /// `state`, through the decryptor if there is one.
    ///
    /// When the frame is not all there yet the result is `UnexpectedEof` and
    /// neither `packet` nor the decryptor changes. Otherwise the frame's bytes
    /// leave `packet` and pass through the decryptor, whether its packet
    /// decodes or not.
    pub fn deserialize(
        bound: Bound,
        state: State,
        compression: PacketCompression,
        decryptor: &mut Option<StreamDecryptor>,
        packet: &mut Vec<u8>,
    ) -> (r: Result<Protocol, DeserializeError>)
        ensures
            decoded(r, decode_frame(bound, state, compression, decrypted(*old(decryptor), old(packet)@))),
            final(packet)@ == old(packet)@.subrange(
                frame_consumed(decrypted(*old(decryptor), old(packet)@)) as int,
                old(packet)@.len() as int,
            ),
            dec_advanced(
                *old(decryptor),
                *final(decryptor),
                old(packet)@.subrange(0, frame_consumed(decrypted(*old(decryptor), old(packet)@)) as int),
            ),
    {
        let ghost buf0 = packet@;
        let ghost d0 = *decryptor;
        let ghost plain = decrypted(d0, buf0);
        let len = packet.len();
        proof {
            lemma_parse_varint_len(plain);
            assert(buf0.subrange(0, 0) =~= Seq::<u8>::empty());
            if let Some(d) = d0 {
                assert(d.history() + Seq::<u8>::empty() =~= d.history());
                lemma_decrypt_len(d.key(), d.history(), buf0);
            }
        }
        let head_len: usize = if len < 6 {
            len
        } else {
            6
        };
        let head: Vec<u8> = match decryptor {
            Some(d) => d.peek(packet.as_slice(), 0, head_len),
            None => copy_range(packet.as_slice(), 0, head_len),
        };
        proof {
            assert(buf0.subrange(0, head_len as int) == buf0.subrange(0, head_len as int));
            if let Some(d) = d0 {
                lemma_decrypt_prefix(d.key(), d.history(), buf0, head_len as nat);
            }
            assert(head@ =~= plain.subrange(0, head_len as int));
            lemma_parse_var_take(plain, head_len as nat);
            assert(rest_of(head@, 0) =~= head@);
        }
        let (l, k) = match VarInt::deserialize(head.as_slice(), 0) {
            Ok((v, p)) => (v.0, p),
            Err(e) => {
                return Err(e);
            },
        };
        if l < 0 {
            return Err(DeserializeError::BrokenPacket);
        }
        if len - k < l as usize {
            return Err(DeserializeError::UnexpectedEof);
        }
        let end = k + l as usize;
        let frame: Vec<u8> = match decryptor {
            Some(d) => d.decrypt(packet.as_slice(), 0, end),
            None => copy_range(packet.as_slice(), 0, end),
        };
        proof {
            if let Some(d) = d0 {
                lemma_decrypt_prefix(d.key(), d.history(), buf0, end as nat);
            }
            assert(frame@ =~= plain.subrange(0, end as int));
        }
        let payload = copy_range(frame.as_slice(), k, end);
        assert(payload@ =~= plain.subrange(k as int, end as int));
        let remaining = copy_range(packet.as_slice(), end, len);
        *packet = remaining;
        Self::decode_payload(bound, state, compression, payload.as_slice())
    }
}

} // verus!

verus! {

proof fn lemma_frame_extent_of(c: PacketCompression, inner: Seq<u8>, rest: Seq<u8>)
    requires
        frame_fits(c, inner),
    ensures
        frame_extent(frame_of(c, inner) + rest) == Ok::<(nat, nat), DeserializeError>(
            (
                varint_bytes(payload_bytes(c, inner).len() as i32).len(),
                payload_bytes(c, inner).len(),
            ),
        ),
        (frame_of(c, inner) + rest).subrange(
            varint_bytes(payload_bytes(c, inner).len() as i32).len() as int,
            frame_of(c, inner).len() as int,
        ) == payload_bytes(c, inner),
{
    let p = payload_bytes(c, inner);
    let h = varint_bytes(p.len() as i32);
    let s = frame_of(c, inner) + rest;
    assert(s =~= h + (p + rest));
    lemma_varint_round_trip(p.len() as i32, p + rest);
    assert(s.subrange(h.len() as int, (h.len() + p.len()) as int) =~= p);
}

proof fn lemma_decode_payload_of(bound: Bound, state: State, c: PacketCompression, inner: Seq<u8>)
    requires
        frame_fits(c, inner),
        inner.len() >= 1,
        (c.enabled && inner.len() >= c.threshold) ==> zlib_round_trips(inner),
    ensures
        decode_payload(bound, state, c, payload_bytes(c, inner)) == decode_inner(bound, state, inner),
{
    let p = payload_bytes(c, inner);
    if c.enabled {
        if inner.len() >= c.threshold {
            let z = zlib_compressed(inner);
            lemma_varint_round_trip(inner.len() as i32, z);
            assert(p.subrange(varint_bytes(inner.len() as i32).len() as int, p.len() as int) =~= z);
        } else {
            lemma_varint_round_trip(0, inner);
            assert(p.subrange(varint_bytes(0).len() as int, p.len() as int) =~= inner);
        }
    }
}

proof fn lemma_decode_inner_of(m: ProtocolModel)
    requires
        Protocol::spec_valid(m),
    ensures
        decode_inner(Protocol::spec_bound(m), Protocol::spec_state(m), inner_bytes(m)) == Ok::<
            ProtocolModel,
            DeserializeError,
        >(m),
        inner_bytes(m).len() >= 1,
{
    let inner = inner_bytes(m);
    let body = Protocol::spec_body(m);
    lemma_varint_round_trip(Protocol::spec_id(m), body);
    let k = varint_bytes(Protocol::spec_id(m)).len();
    assert(inner.subrange(k as int, inner.len() as int) =~= body);
    assert(body + Seq::<u8>::empty() =~= body);
    match m {
        ProtocolModel::Handshake(p) => {
            <Handshake as Serialize>::lemma_round_trip(p, Seq::empty());
        },
        ProtocolModel::Status(p) => {
            Status::lemma_round_trip(p);
        },
        ProtocolModel::Login(p) => {
            Login::lemma_round_trip(p);
        },
        ProtocolModel::Play(p) => {
            Play::lemma_round_trip(p);
        },
    }
}

/// Packet round trip: the frame of a valid packet, whatever follows it, decodes
/// in the packet's own direction and state to the packet, and decoding takes
/// exactly the frame. Where the frame is compressed, this rests on zlib giving
/// back what it compressed, which `Protocol::serialize` states of each frame it
/// compresses.
pub proof fn lemma_frame_round_trip(c: PacketCompression, m: ProtocolModel, rest: Seq<u8>)
    requires
        Protocol::spec_valid(m),
        frame_fits(c, inner_bytes(m)),
        (c.enabled && inner_bytes(m).len() >= c.threshold) ==> zlib_round_trips(inner_bytes(m)),
    ensures
        decode_frame(Protocol::spec_bound(m), Protocol::spec_state(m), c, frame_bytes(c, m) + rest)
            == Ok::<ProtocolModel, DeserializeError>(m),
        frame_consumed(frame_bytes(c, m) + rest) == frame_bytes(c, m).len(),
{
    let inner = inner_bytes(m);
    lemma_decode_inner_of(m);
    lemma_frame_extent_of(c, inner, rest);
    lemma_decode_payload_of(Protocol::spec_bound(m), Protocol::spec_state(m), c, inner);
}

/// Packet round trip through the cipher: a frame encrypted after some
/// ciphertext, with anything after it, decrypted after the same ciphertext with
/// the same key, decodes to the packet and takes exactly the frame's bytes.
pub proof fn lemma_encrypted_frame_round_trip(
    c: PacketCompression,
    m: ProtocolModel,
    key: Seq<u8>,
    history: Seq<u8>,
    more: Seq<u8>,
)
    requires
        Protocol::spec_valid(m),
        frame_fits(c, inner_bytes(m)),
        (c.enabled && inner_bytes(m).len() >= c.threshold) ==> zlib_round_trips(inner_bytes(m)),
    ensures
        ({
            let f = frame_bytes(c, m);
            let sent = cfb8_encrypt(key, history, f) + more;
            &&& decode_frame(
                Protocol::spec_bound(m),
                Protocol::spec_state(m),
                c,
                cfb8_decrypt(key, history, sent),
            ) == Ok::<ProtocolModel, DeserializeError>(m)
            &&& frame_consumed(cfb8_decrypt(key, history, sent)) == f.len()
        }),
{
    let f = frame_bytes(c, m);
    let ct = cfb8_encrypt(key, history, f);
    lemma_decrypt_concat(key, history, ct, more);
    lemma_decrypt_encrypt(key, history, f);
    lemma_frame_round_trip(c, m, cfb8_decrypt(key, history + ct, more));
}

/// Starvation: any strict prefix of a frame asks for more bytes, and decoding
/// takes nothing from it.
pub proof fn lemma_truncated_frame(c: PacketCompression, m: ProtocolModel, k: nat)
    requires
        frame_fits(c, inner_bytes(m)),
        k < frame_bytes(c, m).len(),
    ensures
        decode_frame(Protocol::spec_bound(m), Protocol::spec_state(m), c, frame_bytes(c, m).subrange(0, k as int))
            == Err::<ProtocolModel, DeserializeError>(DeserializeError::UnexpectedEof),
        frame_consumed(frame_bytes(c, m).subrange(0, k as int)) == 0,
{
    lemma_truncated_bytes(c, inner_bytes(m), k);
}

proof fn lemma_truncated_bytes(c: PacketCompression, inner: Seq<u8>, k: nat)
    requires
        frame_fits(c, inner),
        k < frame_of(c, inner).len(),
    ensures
        frame_extent(frame_of(c, inner).subrange(0, k as int)) == Err::<(nat, nat), DeserializeError>(
            DeserializeError::UnexpectedEof,
        ),
{
    let p = payload_bytes(c, inner);
    let h = varint_bytes(p.len() as i32);
    let f = frame_of(c, inner);
    let t = f.subrange(0, k as int);
    if k < h.len() {
        assert(t =~= h.subrange(0, k as int));
        lemma_varint_prefix(p.len() as int as i32, k);
    } else {
        let tail = p.subrange(0, k - h.len());
        assert(t =~= h + tail);
        lemma_varint_round_trip(p.len() as i32, tail);
    }
}

/// Starvation through the cipher: a strict prefix of an encrypted frame,
/// decrypted after the same ciphertext with the same key, asks for more bytes
/// and decoding takes nothing from it.
pub proof fn lemma_truncated_encrypted_frame(
    c: PacketCompression,
    m: ProtocolModel,
    key: Seq<u8>,
    history: Seq<u8>,
    k: nat,
)
    requires
        frame_fits(c, inner_bytes(m)),
        k < frame_bytes(c, m).len(),
    ensures
        ({
            let cut = cfb8_encrypt(key, history, frame_bytes(c, m)).subrange(0, k as int);
            &&& decode_frame(Protocol::spec_bound(m), Protocol::spec_state(m), c, cfb8_decrypt(key, history, cut))
                == Err::<ProtocolModel, DeserializeError>(DeserializeError::UnexpectedEof)
            &&& frame_consumed(cfb8_decrypt(key, history, cut)) == 0
        }),
{
    let f = frame_bytes(c, m);
    let ct = cfb8_encrypt(key, history, f);
    lemma_encrypt_len(key, history, f);
    lemma_decrypt_prefix(key, history, ct, k);
    lemma_decrypt_encrypt(key, history, f);
    lemma_truncated_frame(c, m, k);
}

/// Cipher lockstep: two frames encrypted one after the other by one encryptor
/// decrypt, with a decryptor that starts where the encryptor started, to the
/// two frames in order.
pub proof fn lemma_cipher_lockstep(key: Seq<u8>, history: Seq<u8>, f1: Seq<u8>, f2: Seq<u8>)
    ensures
        ({
            let c1 = cfb8_encrypt(key, history, f1);
            let c2 = cfb8_encrypt(key, history + c1, f2);
            cfb8_decrypt(key, history, c1 + c2) == f1 + f2
        }),
{
    let c1 = cfb8_encrypt(key, history, f1);
    let c2 = cfb8_encrypt(key, history + c1, f2);
    lemma_decrypt_concat(key, history, c1, c2);
    lemma_decrypt_encrypt(key, history, f1);
    lemma_decrypt_encrypt(key, history + c1, f2);
}

/// Compression threshold: with compression on, inner bytes one shorter than the
/// threshold go out whole after a zero length, and inner bytes as long as the
/// threshold go out compressed after their length, which is not zero.
pub proof fn lemma_compression_threshold(c: PacketCompression, inner: Seq<u8>)
    requires
        c.enabled,
        1 <= inner.len() <= i32::MAX,
    ensures
        inner.len() + 1 == c.threshold ==> payload_bytes(c, inner) == varint_bytes(0) + inner
            && parse_varint(payload_bytes(c, inner)) == Ok::<(i32, nat), DeserializeError>((0, 1)),
        inner.len() == c.threshold ==> payload_bytes(c, inner) == varint_bytes(inner.len() as i32)
            + zlib_compressed(inner) && parse_varint(payload_bytes(c, inner)) == Ok::<
            (i32, nat),
            DeserializeError,
        >((inner.len() as i32, varint_bytes(inner.len() as i32).len())) && inner.len() as i32 != 0,
{
    lemma_varint_round_trip(0, inner);
    lemma_varint_round_trip(inner.len() as i32, zlib_compressed(inner));
    assert((0i32 as u32 as u64) >> 7u64 == 0) by (bit_vector);
}

/// Unknown ids: a frame whose id no packet has in that direction and state
/// fails with `UnknownPacketId`, and decoding takes exactly the frame.
#[verifier::rlimit(40)]
pub proof fn lemma_unknown_id(
    bound: Bound,
    state: State,
    c: PacketCompression,
    id: i32,
    body: Seq<u8>,
    rest: Seq<u8>,
)
    requires
        !Protocol::spec_known(bound, state, id),
        frame_fits(c, varint_bytes(id) + body),
        (c.enabled && (varint_bytes(id) + body).len() >= c.threshold) ==> zlib_round_trips(
            varint_bytes(id) + body,
        ),
    ensures
        decode_frame(bound, state, c, frame_of(c, varint_bytes(id) + body) + rest) == Err::<
            ProtocolModel,
            DeserializeError,
        >(DeserializeError::UnknownPacketId(bound, state, id)),
        frame_consumed(frame_of(c, varint_bytes(id) + body) + rest) == frame_of(
            c,
            varint_bytes(id) + body,
        ).len(),
{
    let inner = varint_bytes(id) + body;
    lemma_varint_round_trip(id, body);
    lemma_frame_extent_of(c, inner, rest);
    lemma_decode_payload_of(bound, state, c, inner);
    let k = varint_bytes(id).len();
    assert(inner.subrange(k as int, inner.len() as int) =~= body);
    match state {
        State::Handshake => {},
        State::Status => Status::lemma_parse_len(bound, id, body),
        State::Login => Login::lemma_parse_len(bound, id, body),
        State::Play => Play::lemma_parse_len(bound, id, body),
    }
    assert(Protocol::spec_parse(bound, state, id, body) == Err::<(ProtocolModel, nat), DeserializeError>(
        DeserializeError::UnknownPacketId(bound, state, id),
    ));
}

} // verus!
