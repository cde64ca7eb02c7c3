//! The packet that opens every connection.
use vstd::prelude::*;

use crate::error::DeserializeError;
use crate::types::Serialize;
use crate::varint::{
    lemma_parse_varint_len, lemma_varint_round_trip, parse_varint, varint_bytes, VarInt,
};

verus! {

/// The fields of [`Handshake`], in wire order.
pub type HandshakeFields = (VarInt, (String, (u16, NextState)));

/// The first packet a client sends: its protocol version, the address and port it dialled,
/// and the state it asks for.
#[derive(Debug, Clone)]
pub struct Handshake {
    pub version: VarInt,
    pub address: String,
    pub port: u16,
    pub next_state: NextState,
}

impl Serialize for Handshake {
    type Model = <HandshakeFields as Serialize>::Model;

    open spec fn model(&self) -> Self::Model {
        (
            self.version.model(),
            (self.address.model(), (self.port.model(), self.next_state.model())),
        )
    }

    open spec fn self_delimited() -> bool {
        <HandshakeFields as Serialize>::self_delimited()
    }

    open spec fn valid(m: Self::Model) -> bool {
        <HandshakeFields as Serialize>::valid(m)
    }

    open spec fn encode(m: Self::Model) -> Seq<u8> {
        <HandshakeFields as Serialize>::encode(m)
    }

    open spec fn parse(s: Seq<u8>) -> Result<(Self::Model, nat), DeserializeError> {
        <HandshakeFields as Serialize>::parse(s)
    }

    fn serialize(&self, buf: &mut Vec<u8>) {
        self.version.serialize(buf);
        self.address.serialize(buf);
        self.port.serialize(buf);
        self.next_state.serialize(buf);
        assert(final(buf)@ =~= old(buf)@ + Self::encode(self.model()));
    }

    fn deserialize(buf: &[u8], pos: usize) -> (r: Result<(Handshake, usize), DeserializeError>) {
        match <HandshakeFields as Serialize>::deserialize(buf, pos) {
            Ok(((version, (address, (port, next_state))), p)) => {
                Ok((Handshake { version, address, port, next_state }, p))
            },
            Err(e) => Err(e),
        }
    }

    proof fn lemma_round_trip(m: Self::Model, rest: Seq<u8>) {
        <HandshakeFields as Serialize>::lemma_round_trip(m, rest);
    }

    proof fn lemma_parse_len(s: Seq<u8>) {
        <HandshakeFields as Serialize>::lemma_parse_len(s);
    }
}

/// The state a handshake asks the connection to enter.
#[derive(Debug, Clone, Copy, PartialEq, Eq, Structural)]
pub enum NextState {
    Status,
    Login,
}

impl NextState {
    /// The tag that stands for this variant on the wire.
    pub open spec fn spec_tag(self) -> i32 {
        match self {
            NextState::Status => 1,
            NextState::Login => 2,
        }
    }

    /// The variant that `tag` stands for, if any.
    pub open spec fn spec_from_tag(tag: i32) -> Option<NextState> {
        if tag == 1 {
            Some(NextState::Status)
        } else if tag == 2 {
            Some(NextState::Login)
        } else {
            None
        }
    }

    /// The tag that stands for this variant on the wire.
    pub fn tag(&self) -> (r: i32)
        ensures
            r == self.spec_tag(),
    {
        match self {
            NextState::Status => 1,
            NextState::Login => 2,
        }
    }
}

impl Serialize for NextState {
    type Model = NextState;

    open spec fn model(&self) -> NextState {
        *self
    }

    open spec fn self_delimited() -> bool {
        true
    }

    open spec fn valid(m: NextState) -> bool {
        true
    }

    open spec fn encode(m: NextState) -> Seq<u8> {
        varint_bytes(m.spec_tag())
    }

    open spec fn parse(s: Seq<u8>) -> Result<(NextState, nat), DeserializeError> {
        match parse_varint(s) {
            Err(e) => Err(e),
            Ok((t, n)) => match NextState::spec_from_tag(t) {
                Some(v) => Ok((v, n)),
                None => Err(DeserializeError::InvalidEnumVariant("NextState", t as i64)),
            },
        }
    }

    fn serialize(&self, buf: &mut Vec<u8>) {
        let t = self.tag();
        VarInt(t).serialize(buf);
    }

    fn deserialize(buf: &[u8], pos: usize) -> (r: Result<(NextState, usize), DeserializeError>) {
        match <VarInt as Serialize>::deserialize(buf, pos) {
            Err(e) => Err(e),
            Ok((v, p)) => {
                let t = v.0;
                if t == 1 {
                    Ok((NextState::Status, p))
                } else if t == 2 {
                    Ok((NextState::Login, p))
                } else {
                    Err(DeserializeError::InvalidEnumVariant("NextState", t as i64))
                }
            },
        }
    }

    proof fn lemma_round_trip(m: NextState, rest: Seq<u8>) {
        lemma_varint_round_trip(m.spec_tag(), rest);
    }

    proof fn lemma_parse_len(s: Seq<u8>) {
        lemma_parse_varint_len(s);
    }
}

} // verus!
