//! Packets of the status state: the server list query and the ping.
use vstd::prelude::*;

use crate::error::DeserializeError;
use crate::state::{Bound, State};
use crate::types::Serialize;
use crate::varint::rest_of;

verus! {

/// A packet of the status state.
pub enum Status {
    StatusRequest(StatusRequest),
    PingRequest(Ping),
    StatusResponse(StatusResponse),
    PingResponse(Ping),
}

/// The packets of this state as values: each holds its packet's fields.
pub enum StatusModel {
    StatusRequest(<StatusRequest as Serialize>::Model),
    PingRequest(<Ping as Serialize>::Model),
    StatusResponse(<StatusResponse as Serialize>::Model),
    PingResponse(<Ping as Serialize>::Model),
}

impl Status {
    pub open spec fn model(&self) -> StatusModel {
        match self {
            Status::StatusRequest(p) => StatusModel::StatusRequest(p.model()),
            Status::PingRequest(p) => StatusModel::PingRequest(p.model()),
            Status::StatusResponse(p) => StatusModel::StatusResponse(p.model()),
            Status::PingResponse(p) => StatusModel::PingResponse(p.model()),
        }
    }

    /// The packet id of `m`.
    pub open spec fn spec_id(m: StatusModel) -> i32 {
        match m {
            StatusModel::StatusRequest(_) => 0,
            StatusModel::PingRequest(_) => 1,
            StatusModel::StatusResponse(_) => 0,
            StatusModel::PingResponse(_) => 1,
        }
    }

    /// The direction that `m` travels in.
    pub open spec fn spec_bound(m: StatusModel) -> Bound {
        match m {
            StatusModel::StatusRequest(_) => Bound::Serverbound,
            StatusModel::PingRequest(_) => Bound::Serverbound,
            StatusModel::StatusResponse(_) => Bound::Clientbound,
            StatusModel::PingResponse(_) => Bound::Clientbound,
        }
    }

    /// Packets whose fields the codec can write.
    pub open spec fn spec_valid(m: StatusModel) -> bool {
        match m {
            StatusModel::StatusRequest(x) => <StatusRequest as Serialize>::valid(x),
            StatusModel::PingRequest(x) => <Ping as Serialize>::valid(x),
            StatusModel::StatusResponse(x) => <StatusResponse as Serialize>::valid(x),
            StatusModel::PingResponse(x) => <Ping as Serialize>::valid(x),
        }
    }

    /// The bytes of the body of `m`.
    pub open spec fn spec_body(m: StatusModel) -> Seq<u8> {
        match m {
            StatusModel::StatusRequest(x) => <StatusRequest as Serialize>::encode(x),
            StatusModel::PingRequest(x) => <Ping as Serialize>::encode(x),
            StatusModel::StatusResponse(x) => <StatusResponse as Serialize>::encode(x),
            StatusModel::PingResponse(x) => <Ping as Serialize>::encode(x),
        }
    }

    /// Whether a packet with `id` travels in direction `bound` in this state.
    pub open spec fn spec_known(bound: Bound, id: i32) -> bool {
        match bound {
            Bound::Serverbound => id == 0 || id == 1,
            Bound::Clientbound => id == 0 || id == 1,
        }
    }

    /// Reads the body of the packet with `id` travelling in direction `bound`.
    pub open spec fn spec_parse(bound: Bound, id: i32, s: Seq<u8>) -> Result<
        (StatusModel, nat),
        DeserializeError,
    > {
        match bound {
            Bound::Serverbound => match id {
                0 => match <StatusRequest as Serialize>::parse(s) {
                    Ok((x, n)) => Ok((StatusModel::StatusRequest(x), n)),
                    Err(e) => Err(e),
                },
                1 => match <Ping as Serialize>::parse(s) {
                    Ok((x, n)) => Ok((StatusModel::PingRequest(x), n)),
                    Err(e) => Err(e),
                },
                _ => Err(DeserializeError::UnknownPacketId(bound, State::Status, id)),
            },
            Bound::Clientbound => match id {
                0 => match <StatusResponse as Serialize>::parse(s) {
                    Ok((x, n)) => Ok((StatusModel::StatusResponse(x), n)),
                    Err(e) => Err(e),
                },
                1 => match <Ping as Serialize>::parse(s) {
                    Ok((x, n)) => Ok((StatusModel::PingResponse(x), n)),
                    Err(e) => Err(e),
                },
                _ => Err(DeserializeError::UnknownPacketId(bound, State::Status, id)),
            },
        }
    }

    /// The packet id of this packet.
    pub fn id(&self) -> (r: i32)
        ensures
            r == Self::spec_id(self.model()),
    {
        match self {
            Status::StatusRequest(_) => 0,
            Status::PingRequest(_) => 1,
            Status::StatusResponse(_) => 0,
            Status::PingResponse(_) => 1,
        }
    }

    /// Appends the body of this packet to `buf`.
    pub fn serialize_body(&self, buf: &mut Vec<u8>)
        requires
            Self::spec_valid(self.model()),
        ensures
            final(buf)@ == old(buf)@ + Self::spec_body(self.model()),
    {
        match self {
            Status::StatusRequest(p) => p.serialize(buf),
            Status::PingRequest(p) => p.serialize(buf),
            Status::StatusResponse(p) => p.serialize(buf),
            Status::PingResponse(p) => p.serialize(buf),
        }
    }

    /// Reads at `buf[pos..]` the body of the packet with `id` travelling in
    /// direction `bound`: the packet and the position after it.
    pub fn deserialize(bound: Bound, id: i32, buf: &[u8], pos: usize) -> (r: Result<
        (Status, usize),
        DeserializeError,
    >)
        requires
            pos <= buf@.len(),
        ensures
            match r {
                Ok((v, p)) => {
                    &&& pos <= p <= buf@.len()
                    &&& Self::spec_parse(bound, id, rest_of(buf@, pos)) == Ok::<
                        (StatusModel, nat),
                        DeserializeError,
                    >((v.model(), (p - pos) as nat))
                },
                Err(e) => Self::spec_parse(bound, id, rest_of(buf@, pos)) == Err::<
                    (StatusModel, nat),
                    DeserializeError,
                >(e),
            },
    {
        match bound {
            Bound::Serverbound => match id {
                0 => match <StatusRequest as Serialize>::deserialize(buf, pos) {
                    Ok((x, p)) => Ok((Status::StatusRequest(x), p)),
                    Err(e) => Err(e),
                },
                1 => match <Ping as Serialize>::deserialize(buf, pos) {
                    Ok((x, p)) => Ok((Status::PingRequest(x), p)),
                    Err(e) => Err(e),
                },
                _ => Err(DeserializeError::UnknownPacketId(bound, State::Status, id)),
            },
            Bound::Clientbound => match id {
                0 => match <StatusResponse as Serialize>::deserialize(buf, pos) {
                    Ok((x, p)) => Ok((Status::StatusResponse(x), p)),
                    Err(e) => Err(e),
                },
                1 => match <Ping as Serialize>::deserialize(buf, pos) {
                    Ok((x, p)) => Ok((Status::PingResponse(x), p)),
                    Err(e) => Err(e),
                },
                _ => Err(DeserializeError::UnknownPacketId(bound, State::Status, id)),
            },
        }
    }

    /// Reading the body of a valid packet in its own direction, as the whole
    /// of a frame's body, gives it back.
    pub proof fn lemma_round_trip(m: StatusModel)
        requires
            Self::spec_valid(m),
        ensures
            Self::spec_parse(Self::spec_bound(m), Self::spec_id(m), Self::spec_body(m))
                == Ok::<(StatusModel, nat), DeserializeError>((m, Self::spec_body(m).len())),
    {
        assert(Self::spec_body(m) + Seq::<u8>::empty() =~= Self::spec_body(m));
        match m {
            StatusModel::StatusRequest(x) => <StatusRequest as Serialize>::lemma_round_trip(x, Seq::empty()),
            StatusModel::PingRequest(x) => <Ping as Serialize>::lemma_round_trip(x, Seq::empty()),
            StatusModel::StatusResponse(x) => <StatusResponse as Serialize>::lemma_round_trip(x, Seq::empty()),
            StatusModel::PingResponse(x) => <Ping as Serialize>::lemma_round_trip(x, Seq::empty()),
        }
    }

    /// A read never takes more bytes than it was given, and fails on ids
    /// that no packet has.
    pub proof fn lemma_parse_len(bound: Bound, id: i32, s: Seq<u8>)
        ensures
            Self::spec_parse(bound, id, s) matches Ok((_, n)) ==> n <= s.len(),
            !Self::spec_known(bound, id) ==> Self::spec_parse(bound, id, s) == Err::<
                (StatusModel, nat),
                DeserializeError,
            >(DeserializeError::UnknownPacketId(bound, State::Status, id)),
    {
        if bound == Bound::Serverbound {
            <StatusRequest as Serialize>::lemma_parse_len(s);
            <Ping as Serialize>::lemma_parse_len(s);
        } else {
            <StatusResponse as Serialize>::lemma_parse_len(s);
            <Ping as Serialize>::lemma_parse_len(s);
        }
    }
}

/// Asks the server for its status.
#[derive(Debug, Clone, Copy, PartialEq, Eq, Structural)]
pub struct StatusRequest;

impl Serialize for StatusRequest {
    type Model = ();

    open spec fn model(&self) -> () {
        ()
    }

    open spec fn self_delimited() -> bool {
        true
    }

    open spec fn valid(m: ()) -> bool {
        true
    }

    open spec fn encode(m: ()) -> Seq<u8> {
        seq![]
    }

    open spec fn parse(s: Seq<u8>) -> Result<((), nat), DeserializeError> {
        Ok(((), 0))
    }

    fn serialize(&self, buf: &mut Vec<u8>) {
        assert(old(buf)@ + Seq::<u8>::empty() =~= old(buf)@);
    }

    fn deserialize(buf: &[u8], pos: usize) -> (r: Result<(StatusRequest, usize), DeserializeError>) {
        Ok((StatusRequest, pos))
    }

    proof fn lemma_round_trip(m: (), rest: Seq<u8>) {
    }

    proof fn lemma_parse_len(s: Seq<u8>) {
    }
}

/// The fields of [`Ping`], in wire order.
pub type PingFields = i64;

/// A ping or its answer, carrying a value that the answer repeats.
#[derive(Debug, Clone)]
pub struct Ping {
    pub payload: i64,
}

impl Serialize for Ping {
    type Model = <PingFields as Serialize>::Model;

    open spec fn model(&self) -> Self::Model {
        self.payload.model()
    }

    open spec fn self_delimited() -> bool {
        <PingFields as Serialize>::self_delimited()
    }

    open spec fn valid(m: Self::Model) -> bool {
        <PingFields as Serialize>::valid(m)
    }

    open spec fn encode(m: Self::Model) -> Seq<u8> {
        <PingFields as Serialize>::encode(m)
    }

    open spec fn parse(s: Seq<u8>) -> Result<(Self::Model, nat), DeserializeError> {
        <PingFields as Serialize>::parse(s)
    }

    fn serialize(&self, buf: &mut Vec<u8>) {
        self.payload.serialize(buf);
        assert(final(buf)@ =~= old(buf)@ + Self::encode(self.model()));
    }

    fn deserialize(buf: &[u8], pos: usize) -> (r: Result<(Ping, usize), DeserializeError>) {
        match <PingFields as Serialize>::deserialize(buf, pos) {
            Ok((payload, p)) => {
                Ok((Ping { payload }, p))
            },
            Err(e) => Err(e),
        }
    }

    proof fn lemma_round_trip(m: Self::Model, rest: Seq<u8>) {
        <PingFields as Serialize>::lemma_round_trip(m, rest);
    }

    proof fn lemma_parse_len(s: Seq<u8>) {
        <PingFields as Serialize>::lemma_parse_len(s);
    }
}

/// The fields of [`StatusResponse`], in wire order.
pub type StatusResponseFields = String;

/// The server status as a JSON document.
#[derive(Debug, Clone)]
pub struct StatusResponse {
    pub response: String,
}

impl Serialize for StatusResponse {
    type Model = <StatusResponseFields as Serialize>::Model;

    open spec fn model(&self) -> Self::Model {
        self.response.model()
    }

    open spec fn self_delimited() -> bool {
        <StatusResponseFields as Serialize>::self_delimited()
    }

    open spec fn valid(m: Self::Model) -> bool {
        <StatusResponseFields as Serialize>::valid(m)
    }

    open spec fn encode(m: Self::Model) -> Seq<u8> {
        <StatusResponseFields as Serialize>::encode(m)
    }

    open spec fn parse(s: Seq<u8>) -> Result<(Self::Model, nat), DeserializeError> {
        <StatusResponseFields as Serialize>::parse(s)
    }

    fn serialize(&self, buf: &mut Vec<u8>) {
        self.response.serialize(buf);
        assert(final(buf)@ =~= old(buf)@ + Self::encode(self.model()));
    }

    fn deserialize(buf: &[u8], pos: usize) -> (r: Result<(StatusResponse, usize), DeserializeError>) {
        match <StatusResponseFields as Serialize>::deserialize(buf, pos) {
            Ok((response, p)) => {
                Ok((StatusResponse { response }, p))
            },
            Err(e) => Err(e),
        }
    }

    proof fn lemma_round_trip(m: Self::Model, rest: Seq<u8>) {
        <StatusResponseFields as Serialize>::lemma_round_trip(m, rest);
    }

    proof fn lemma_parse_len(s: Seq<u8>) {
        <StatusResponseFields as Serialize>::lemma_parse_len(s);
    }
}

} // verus!
