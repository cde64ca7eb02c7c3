//! Packets of the login state: identification, encryption and compression set-up.
use vstd::prelude::*;

use crate::error::DeserializeError;
use crate::state::{Bound, State};
use crate::types::Serialize;
use crate::varint::{rest_of, VarInt};
use crate::compound::Either;
use crate::secret::PublicKeyDer;

verus! {

/// A packet of the login state.
pub enum Login {
    LoginStart(LoginStart),
    EncryptionResponse(EncryptionResponse),
    LoginPluginResponse(LoginPluginResponse),
    LoginDisconnect(LoginDisconnect),
    EncryptionRequest(EncryptionRequest),
    LoginSuccess(LoginSuccess),
    SetCompression(SetCompression),
    LoginPluginRequest(LoginPluginRequest),
}

/// The packets of this state as values: each holds its packet's fields.
pub enum LoginModel {
    LoginStart(<LoginStart as Serialize>::Model),
    EncryptionResponse(<EncryptionResponse as Serialize>::Model),
    LoginPluginResponse(<LoginPluginResponse as Serialize>::Model),
    LoginDisconnect(<LoginDisconnect as Serialize>::Model),
    EncryptionRequest(<EncryptionRequest as Serialize>::Model),
    LoginSuccess(<LoginSuccess as Serialize>::Model),
    SetCompression(<SetCompression as Serialize>::Model),
    LoginPluginRequest(<LoginPluginRequest as Serialize>::Model),
}

impl Login {
    pub open spec fn model(&self) -> LoginModel {
        match self {
            Login::LoginStart(p) => LoginModel::LoginStart(p.model()),
            Login::EncryptionResponse(p) => LoginModel::EncryptionResponse(p.model()),
            Login::LoginPluginResponse(p) => LoginModel::LoginPluginResponse(p.model()),
            Login::LoginDisconnect(p) => LoginModel::LoginDisconnect(p.model()),
            Login::EncryptionRequest(p) => LoginModel::EncryptionRequest(p.model()),
            Login::LoginSuccess(p) => LoginModel::LoginSuccess(p.model()),
            Login::SetCompression(p) => LoginModel::SetCompression(p.model()),
            Login::LoginPluginRequest(p) => LoginModel::LoginPluginRequest(p.model()),
        }
    }

    /// The packet id of `m`.
    pub open spec fn spec_id(m: LoginModel) -> i32 {
        match m {
            LoginModel::LoginStart(_) => 0,
            LoginModel::EncryptionResponse(_) => 1,
            LoginModel::LoginPluginResponse(_) => 2,
            LoginModel::LoginDisconnect(_) => 0,
            LoginModel::EncryptionRequest(_) => 1,
            LoginModel::LoginSuccess(_) => 2,
            LoginModel::SetCompression(_) => 3,
            LoginModel::LoginPluginRequest(_) => 4,
        }
    }

    /// The direction that `m` travels in.
    pub open spec fn spec_bound(m: LoginModel) -> Bound {
        match m {
            LoginModel::LoginStart(_) => Bound::Serverbound,
            LoginModel::EncryptionResponse(_) => Bound::Serverbound,
            LoginModel::LoginPluginResponse(_) => Bound::Serverbound,
            LoginModel::LoginDisconnect(_) => Bound::Clientbound,
            LoginModel::EncryptionRequest(_) => Bound::Clientbound,
            LoginModel::LoginSuccess(_) => Bound::Clientbound,
            LoginModel::SetCompression(_) => Bound::Clientbound,
            LoginModel::LoginPluginRequest(_) => Bound::Clientbound,
        }
    }

    /// Packets whose fields the codec can write.
    pub open spec fn spec_valid(m: LoginModel) -> bool {
        match m {
            LoginModel::LoginStart(x) => <LoginStart as Serialize>::valid(x),
            LoginModel::EncryptionResponse(x) => <EncryptionResponse as Serialize>::valid(x),
            LoginModel::LoginPluginResponse(x) => <LoginPluginResponse as Serialize>::valid(x),
            LoginModel::LoginDisconnect(x) => <LoginDisconnect as Serialize>::valid(x),
            LoginModel::EncryptionRequest(x) => <EncryptionRequest as Serialize>::valid(x),
            LoginModel::LoginSuccess(x) => <LoginSuccess as Serialize>::valid(x),
            LoginModel::SetCompression(x) => <SetCompression as Serialize>::valid(x),
            LoginModel::LoginPluginRequest(x) => <LoginPluginRequest as Serialize>::valid(x),
        }
    }

    /// The bytes of the body of `m`.
    pub open spec fn spec_body(m: LoginModel) -> Seq<u8> {
        match m {
            LoginModel::LoginStart(x) => <LoginStart as Serialize>::encode(x),
            LoginModel::EncryptionResponse(x) => <EncryptionResponse as Serialize>::encode(x),
            LoginModel::LoginPluginResponse(x) => <LoginPluginResponse as Serialize>::encode(x),
            LoginModel::LoginDisconnect(x) => <LoginDisconnect as Serialize>::encode(x),
            LoginModel::EncryptionRequest(x) => <EncryptionRequest as Serialize>::encode(x),
            LoginModel::LoginSuccess(x) => <LoginSuccess as Serialize>::encode(x),
            LoginModel::SetCompression(x) => <SetCompression as Serialize>::encode(x),
            LoginModel::LoginPluginRequest(x) => <LoginPluginRequest as Serialize>::encode(x),
        }
    }

    /// Whether a packet with `id` travels in direction `bound` in this state.
    pub open spec fn spec_known(bound: Bound, id: i32) -> bool {
        match bound {
            Bound::Serverbound => id == 0 || id == 1 || id == 2,
            Bound::Clientbound => id == 0 || id == 1 || id == 2 || id == 3 || id == 4,
        }
    }

    /// Reads the body of the packet with `id` travelling in direction `bound`.
    pub open spec fn spec_parse(bound: Bound, id: i32, s: Seq<u8>) -> Result<
        (LoginModel, nat),
        DeserializeError,
    > {
        match bound {
            Bound::Serverbound => match id {
                0 => match <LoginStart as Serialize>::parse(s) {
                    Ok((x, n)) => Ok((LoginModel::LoginStart(x), n)),
                    Err(e) => Err(e),
                },
                1 => match <EncryptionResponse as Serialize>::parse(s) {
                    Ok((x, n)) => Ok((LoginModel::EncryptionResponse(x), n)),
                    Err(e) => Err(e),
                },
                2 => match <LoginPluginResponse as Serialize>::parse(s) {
                    Ok((x, n)) => Ok((LoginModel::LoginPluginResponse(x), n)),
                    Err(e) => Err(e),
                },
                _ => Err(DeserializeError::UnknownPacketId(bound, State::Login, id)),
            },
            Bound::Clientbound => match id {
                0 => match <LoginDisconnect as Serialize>::parse(s) {
                    Ok((x, n)) => Ok((LoginModel::LoginDisconnect(x), n)),
                    Err(e) => Err(e),
                },
                1 => match <EncryptionRequest as Serialize>::parse(s) {
                    Ok((x, n)) => Ok((LoginModel::EncryptionRequest(x), n)),
                    Err(e) => Err(e),
                },
                2 => match <LoginSuccess as Serialize>::parse(s) {
                    Ok((x, n)) => Ok((LoginModel::LoginSuccess(x), n)),
                    Err(e) => Err(e),
                },
                3 => match <SetCompression as Serialize>::parse(s) {
                    Ok((x, n)) => Ok((LoginModel::SetCompression(x), n)),
                    Err(e) => Err(e),
                },
                4 => match <LoginPluginRequest as Serialize>::parse(s) {
                    Ok((x, n)) => Ok((LoginModel::LoginPluginRequest(x), n)),
                    Err(e) => Err(e),
                },
                _ => Err(DeserializeError::UnknownPacketId(bound, State::Login, id)),
            },
        }
    }

    /// The packet id of this packet.
    pub fn id(&self) -> (r: i32)
        ensures
            r == Self::spec_id(self.model()),
    {
        match self {
            Login::LoginStart(_) => 0,
            Login::EncryptionResponse(_) => 1,
            Login::LoginPluginResponse(_) => 2,
            Login::LoginDisconnect(_) => 0,
            Login::EncryptionRequest(_) => 1,
            Login::LoginSuccess(_) => 2,
            Login::SetCompression(_) => 3,
            Login::LoginPluginRequest(_) => 4,
        }
    }

    /// Appends the body of this packet to `buf`.
    pub fn serialize_body(&self, buf: &mut Vec<u8>)
        requires
            Self::spec_valid(self.model()),
        ensures
            final(buf)@ == old(buf)@ + Self::spec_body(self.model()),
    {
        match self {
            Login::LoginStart(p) => p.serialize(buf),
            Login::EncryptionResponse(p) => p.serialize(buf),
            Login::LoginPluginResponse(p) => p.serialize(buf),
            Login::LoginDisconnect(p) => p.serialize(buf),
            Login::EncryptionRequest(p) => p.serialize(buf),
            Login::LoginSuccess(p) => p.serialize(buf),
            Login::SetCompression(p) => p.serialize(buf),
            Login::LoginPluginRequest(p) => p.serialize(buf),
        }
    }

    /// Reads at `buf[pos..]` the body of the packet with `id` travelling in
    /// direction `bound`: the packet and the position after it.
    pub fn deserialize(bound: Bound, id: i32, buf: &[u8], pos: usize) -> (r: Result<
        (Login, usize),
        DeserializeError,
    >)
        requires
            pos <= buf@.len(),
        ensures
            match r {
                Ok((v, p)) => {
                    &&& pos <= p <= buf@.len()
                    &&& Self::spec_parse(bound, id, rest_of(buf@, pos)) == Ok::<
                        (LoginModel, nat),
                        DeserializeError,
                    >((v.model(), (p - pos) as nat))
                },
                Err(e) => Self::spec_parse(bound, id, rest_of(buf@, pos)) == Err::<
                    (LoginModel, nat),
                    DeserializeError,
                >(e),
            },
    {
        match bound {
            Bound::Serverbound => match id {
                0 => match <LoginStart as Serialize>::deserialize(buf, pos) {
                    Ok((x, p)) => Ok((Login::LoginStart(x), p)),
                    Err(e) => Err(e),
                },
                1 => match <EncryptionResponse as Serialize>::deserialize(buf, pos) {
                    Ok((x, p)) => Ok((Login::EncryptionResponse(x), p)),
                    Err(e) => Err(e),
                },
                2 => match <LoginPluginResponse as Serialize>::deserialize(buf, pos) {
                    Ok((x, p)) => Ok((Login::LoginPluginResponse(x), p)),
                    Err(e) => Err(e),
                },
                _ => Err(DeserializeError::UnknownPacketId(bound, State::Login, id)),
            },
            Bound::Clientbound => match id {
                0 => match <LoginDisconnect as Serialize>::deserialize(buf, pos) {
                    Ok((x, p)) => Ok((Login::LoginDisconnect(x), p)),
                    Err(e) => Err(e),
                },
                1 => match <EncryptionRequest as Serialize>::deserialize(buf, pos) {
                    Ok((x, p)) => Ok((Login::EncryptionRequest(x), p)),
                    Err(e) => Err(e),
                },
                2 => match <LoginSuccess as Serialize>::deserialize(buf, pos) {
                    Ok((x, p)) => Ok((Login::LoginSuccess(x), p)),
                    Err(e) => Err(e),
                },
                3 => match <SetCompression as Serialize>::deserialize(buf, pos) {
                    Ok((x, p)) => Ok((Login::SetCompression(x), p)),
                    Err(e) => Err(e),
                },
                4 => match <LoginPluginRequest as Serialize>::deserialize(buf, pos) {
                    Ok((x, p)) => Ok((Login::LoginPluginRequest(x), p)),
                    Err(e) => Err(e),
                },
                _ => Err(DeserializeError::UnknownPacketId(bound, State::Login, id)),
            },
        }
    }

    /// Reading the body of a valid packet in its own direction, as the whole
    /// of a frame's body, gives it back.
    pub proof fn lemma_round_trip(m: LoginModel)
        requires
            Self::spec_valid(m),
        ensures
            Self::spec_parse(Self::spec_bound(m), Self::spec_id(m), Self::spec_body(m))
                == Ok::<(LoginModel, nat), DeserializeError>((m, Self::spec_body(m).len())),
    {
        assert(Self::spec_body(m) + Seq::<u8>::empty() =~= Self::spec_body(m));
        match m {
            LoginModel::LoginStart(x) => <LoginStart as Serialize>::lemma_round_trip(x, Seq::empty()),
            LoginModel::EncryptionResponse(x) => <EncryptionResponse as Serialize>::lemma_round_trip(x, Seq::empty()),
            LoginModel::LoginPluginResponse(x) => <LoginPluginResponse as Serialize>::lemma_round_trip(x, Seq::empty()),
            LoginModel::LoginDisconnect(x) => <LoginDisconnect as Serialize>::lemma_round_trip(x, Seq::empty()),
            LoginModel::EncryptionRequest(x) => <EncryptionRequest as Serialize>::lemma_round_trip(x, Seq::empty()),
            LoginModel::LoginSuccess(x) => <LoginSuccess as Serialize>::lemma_round_trip(x, Seq::empty()),
            LoginModel::SetCompression(x) => <SetCompression as Serialize>::lemma_round_trip(x, Seq::empty()),
            LoginModel::LoginPluginRequest(x) => <LoginPluginRequest as Serialize>::lemma_round_trip(x, Seq::empty()),
        }
    }

    /// A read never takes more bytes than it was given, and fails on ids
    /// that no packet has.
    pub proof fn lemma_parse_len(bound: Bound, id: i32, s: Seq<u8>)
        ensures
            Self::spec_parse(bound, id, s) matches Ok((_, n)) ==> n <= s.len(),
            !Self::spec_known(bound, id) ==> Self::spec_parse(bound, id, s) == Err::<
                (LoginModel, nat),
                DeserializeError,
            >(DeserializeError::UnknownPacketId(bound, State::Login, id)),
    {
        if bound == Bound::Serverbound {
            <LoginStart as Serialize>::lemma_parse_len(s);
            <EncryptionResponse as Serialize>::lemma_parse_len(s);
            <LoginPluginResponse as Serialize>::lemma_parse_len(s);
        } else {
            <LoginDisconnect as Serialize>::lemma_parse_len(s);
            <EncryptionRequest as Serialize>::lemma_parse_len(s);
            <LoginSuccess as Serialize>::lemma_parse_len(s);
            <SetCompression as Serialize>::lemma_parse_len(s);
            <LoginPluginRequest as Serialize>::lemma_parse_len(s);
        }
    }
}

/// The fields of [`LoginStart`], in wire order.
pub type LoginStartFields = (String, Option<SigData>);

/// The player name, and the signature data of the player's key where there is one.
#[derive(Debug, Clone)]
pub struct LoginStart {
    pub name: String,
    pub sig_data: Option<SigData>,
}

impl Serialize for LoginStart {
    type Model = <LoginStartFields as Serialize>::Model;

    open spec fn model(&self) -> Self::Model {
        (self.name.model(), self.sig_data.model())
    }

    open spec fn self_delimited() -> bool {
        <LoginStartFields as Serialize>::self_delimited()
    }

    open spec fn valid(m: Self::Model) -> bool {
        <LoginStartFields as Serialize>::valid(m)
    }

    open spec fn encode(m: Self::Model) -> Seq<u8> {
        <LoginStartFields as Serialize>::encode(m)
    }

    open spec fn parse(s: Seq<u8>) -> Result<(Self::Model, nat), DeserializeError> {
        <LoginStartFields as Serialize>::parse(s)
    }

    fn serialize(&self, buf: &mut Vec<u8>) {
        self.name.serialize(buf);
        self.sig_data.serialize(buf);
        assert(final(buf)@ =~= old(buf)@ + Self::encode(self.model()));
    }

    fn deserialize(buf: &[u8], pos: usize) -> (r: Result<(LoginStart, usize), DeserializeError>) {
        match <LoginStartFields as Serialize>::deserialize(buf, pos) {
            Ok(((name, sig_data), p)) => {
                Ok((LoginStart { name, sig_data }, p))
            },
            Err(e) => Err(e),
        }
    }

    proof fn lemma_round_trip(m: Self::Model, rest: Seq<u8>) {
        <LoginStartFields as Serialize>::lemma_round_trip(m, rest);
    }

    proof fn lemma_parse_len(s: Seq<u8>) {
        <LoginStartFields as Serialize>::lemma_parse_len(s);
    }
}

/// The fields of [`EncryptionResponse`], in wire order.
pub type EncryptionResponseFields = (SharedSecret, Either<EncryptedVerifyToken, SaltSignature>);

/// The shared secret and the verify token, encrypted with the server's public key, or a
/// salted signature in place of the token.
#[derive(Debug, Clone)]
pub struct EncryptionResponse {
    pub shared_secret: SharedSecret,
    pub verify: Either<EncryptedVerifyToken, SaltSignature>,
}

impl Serialize for EncryptionResponse {
    type Model = <EncryptionResponseFields as Serialize>::Model;

    open spec fn model(&self) -> Self::Model {
        (self.shared_secret.model(), self.verify.model())
    }

    open spec fn self_delimited() -> bool {
        <EncryptionResponseFields as Serialize>::self_delimited()
    }

    open spec fn valid(m: Self::Model) -> bool {
        <EncryptionResponseFields as Serialize>::valid(m)
    }

    open spec fn encode(m: Self::Model) -> Seq<u8> {
        <EncryptionResponseFields as Serialize>::encode(m)
    }

    open spec fn parse(s: Seq<u8>) -> Result<(Self::Model, nat), DeserializeError> {
        <EncryptionResponseFields as Serialize>::parse(s)
    }

    fn serialize(&self, buf: &mut Vec<u8>) {
        self.shared_secret.serialize(buf);
        self.verify.serialize(buf);
        assert(final(buf)@ =~= old(buf)@ + Self::encode(self.model()));
    }

    fn deserialize(buf: &[u8], pos: usize) -> (r: Result<(EncryptionResponse, usize), DeserializeError>) {
        match <EncryptionResponseFields as Serialize>::deserialize(buf, pos) {
            Ok(((shared_secret, verify), p)) => {
                Ok((EncryptionResponse { shared_secret, verify }, p))
            },
            Err(e) => Err(e),
        }
    }

    proof fn lemma_round_trip(m: Self::Model, rest: Seq<u8>) {
        <EncryptionResponseFields as Serialize>::lemma_round_trip(m, rest);
    }

    proof fn lemma_parse_len(s: Seq<u8>) {
        <EncryptionResponseFields as Serialize>::lemma_parse_len(s);
    }
}

/// The fields of [`LoginPluginResponse`], in wire order.
pub type LoginPluginResponseFields = (VarInt, Option<Vec<u8>>);

/// The answer to a plugin request; no data means that the client did not understand it.
#[derive(Debug, Clone)]
pub struct LoginPluginResponse {
    pub message_id: VarInt,
    pub data: Option<Vec<u8>>,
}

impl Serialize for LoginPluginResponse {
    type Model = <LoginPluginResponseFields as Serialize>::Model;

    open spec fn model(&self) -> Self::Model {
        (self.message_id.model(), self.data.model())
    }

    open spec fn self_delimited() -> bool {
        <LoginPluginResponseFields as Serialize>::self_delimited()
    }

    open spec fn valid(m: Self::Model) -> bool {
        <LoginPluginResponseFields as Serialize>::valid(m)
    }

    open spec fn encode(m: Self::Model) -> Seq<u8> {
        <LoginPluginResponseFields as Serialize>::encode(m)
    }

    open spec fn parse(s: Seq<u8>) -> Result<(Self::Model, nat), DeserializeError> {
        <LoginPluginResponseFields as Serialize>::parse(s)
    }

    fn serialize(&self, buf: &mut Vec<u8>) {
        self.message_id.serialize(buf);
        self.data.serialize(buf);
        assert(final(buf)@ =~= old(buf)@ + Self::encode(self.model()));
    }

    fn deserialize(buf: &[u8], pos: usize) -> (r: Result<(LoginPluginResponse, usize), DeserializeError>) {
        match <LoginPluginResponseFields as Serialize>::deserialize(buf, pos) {
            Ok(((message_id, data), p)) => {
                Ok((LoginPluginResponse { message_id, data }, p))
            },
            Err(e) => Err(e),
        }
    }

    proof fn lemma_round_trip(m: Self::Model, rest: Seq<u8>) {
        <LoginPluginResponseFields as Serialize>::lemma_round_trip(m, rest);
    }

    proof fn lemma_parse_len(s: Seq<u8>) {
        <LoginPluginResponseFields as Serialize>::lemma_parse_len(s);
    }
}

/// The fields of [`LoginDisconnect`], in wire order.
pub type LoginDisconnectFields = String;

/// Ends the login with a reason, a chat component as JSON.
#[derive(Debug, Clone)]
pub struct LoginDisconnect {
    pub reason: String,
}

impl Serialize for LoginDisconnect {
    type Model = <LoginDisconnectFields as Serialize>::Model;

    open spec fn model(&self) -> Self::Model {
        self.reason.model()
    }

    open spec fn self_delimited() -> bool {
        <LoginDisconnectFields as Serialize>::self_delimited()
    }

    open spec fn valid(m: Self::Model) -> bool {
        <LoginDisconnectFields as Serialize>::valid(m)
    }

    open spec fn encode(m: Self::Model) -> Seq<u8> {
        <LoginDisconnectFields as Serialize>::encode(m)
    }

    open spec fn parse(s: Seq<u8>) -> Result<(Self::Model, nat), DeserializeError> {
        <LoginDisconnectFields as Serialize>::parse(s)
    }

    fn serialize(&self, buf: &mut Vec<u8>) {
        self.reason.serialize(buf);
        assert(final(buf)@ =~= old(buf)@ + Self::encode(self.model()));
    }

    fn deserialize(buf: &[u8], pos: usize) -> (r: Result<(LoginDisconnect, usize), DeserializeError>) {
        match <LoginDisconnectFields as Serialize>::deserialize(buf, pos) {
            Ok((reason, p)) => {
                Ok((LoginDisconnect { reason }, p))
            },
            Err(e) => Err(e),
        }
    }

    proof fn lemma_round_trip(m: Self::Model, rest: Seq<u8>) {
        <LoginDisconnectFields as Serialize>::lemma_round_trip(m, rest);
    }

    proof fn lemma_parse_len(s: Seq<u8>) {
        <LoginDisconnectFields as Serialize>::lemma_parse_len(s);
    }
}

/// The fields of [`EncryptionRequest`], in wire order.
pub type EncryptionRequestFields = (String, (PublicKeyDer, VerifyToken));

/// The server id, the server's public key as DER-encoded SubjectPublicKeyInfo, and a verify
/// token.
#[derive(Debug, Clone)]
pub struct EncryptionRequest {
    pub server_id: String,
    pub public_key: PublicKeyDer,
    pub verify_token: VerifyToken,
}

impl Serialize for EncryptionRequest {
    type Model = <EncryptionRequestFields as Serialize>::Model;

    open spec fn model(&self) -> Self::Model {
        (self.server_id.model(), (self.public_key.model(), self.verify_token.model()))
    }

    open spec fn self_delimited() -> bool {
        <EncryptionRequestFields as Serialize>::self_delimited()
    }

    open spec fn valid(m: Self::Model) -> bool {
        <EncryptionRequestFields as Serialize>::valid(m)
    }

    open spec fn encode(m: Self::Model) -> Seq<u8> {
        <EncryptionRequestFields as Serialize>::encode(m)
    }

    open spec fn parse(s: Seq<u8>) -> Result<(Self::Model, nat), DeserializeError> {
        <EncryptionRequestFields as Serialize>::parse(s)
    }

    fn serialize(&self, buf: &mut Vec<u8>) {
        self.server_id.serialize(buf);
        self.public_key.serialize(buf);
        self.verify_token.serialize(buf);
        assert(final(buf)@ =~= old(buf)@ + Self::encode(self.model()));
    }

    fn deserialize(buf: &[u8], pos: usize) -> (r: Result<(EncryptionRequest, usize), DeserializeError>) {
        match <EncryptionRequestFields as Serialize>::deserialize(buf, pos) {
            Ok(((server_id, (public_key, verify_token)), p)) => {
                Ok((EncryptionRequest { server_id, public_key, verify_token }, p))
            },
            Err(e) => Err(e),
        }
    }

    proof fn lemma_round_trip(m: Self::Model, rest: Seq<u8>) {
        <EncryptionRequestFields as Serialize>::lemma_round_trip(m, rest);
    }

    proof fn lemma_parse_len(s: Seq<u8>) {
        <EncryptionRequestFields as Serialize>::lemma_parse_len(s);
    }
}

/// The fields of [`LoginSuccess`], in wire order.
pub type LoginSuccessFields = (u128, (String, Vec<LoginSuccessProperty>));

/// Ends the login: the player's UUID, name and profile properties.
#[derive(Debug, Clone)]
pub struct LoginSuccess {
    pub uuid: u128,
    pub username: String,
    pub properties: Vec<LoginSuccessProperty>,
}

impl Serialize for LoginSuccess {
    type Model = <LoginSuccessFields as Serialize>::Model;

    open spec fn model(&self) -> Self::Model {
        (self.uuid.model(), (self.username.model(), self.properties.model()))
    }

    open spec fn self_delimited() -> bool {
        <LoginSuccessFields as Serialize>::self_delimited()
    }

    open spec fn valid(m: Self::Model) -> bool {
        <LoginSuccessFields as Serialize>::valid(m)
    }

    open spec fn encode(m: Self::Model) -> Seq<u8> {
        <LoginSuccessFields as Serialize>::encode(m)
    }

    open spec fn parse(s: Seq<u8>) -> Result<(Self::Model, nat), DeserializeError> {
        <LoginSuccessFields as Serialize>::parse(s)
    }

    fn serialize(&self, buf: &mut Vec<u8>) {
        self.uuid.serialize(buf);
        self.username.serialize(buf);
        self.properties.serialize(buf);
        assert(final(buf)@ =~= old(buf)@ + Self::encode(self.model()));
    }

    fn deserialize(buf: &[u8], pos: usize) -> (r: Result<(LoginSuccess, usize), DeserializeError>) {
        match <LoginSuccessFields as Serialize>::deserialize(buf, pos) {
            Ok(((uuid, (username, properties)), p)) => {
                Ok((LoginSuccess { uuid, username, properties }, p))
            },
            Err(e) => Err(e),
        }
    }

    proof fn lemma_round_trip(m: Self::Model, rest: Seq<u8>) {
        <LoginSuccessFields as Serialize>::lemma_round_trip(m, rest);
    }

    proof fn lemma_parse_len(s: Seq<u8>) {
        <LoginSuccessFields as Serialize>::lemma_parse_len(s);
    }
}

/// The fields of [`SetCompression`], in wire order.
pub type SetCompressionFields = VarInt;

/// Turns on compression with the given threshold.
#[derive(Debug, Clone)]
pub struct SetCompression {
    pub threshold: VarInt,
}

impl Serialize for SetCompression {
    type Model = <SetCompressionFields as Serialize>::Model;

    open spec fn model(&self) -> Self::Model {
        self.threshold.model()
    }

    open spec fn self_delimited() -> bool {
        <SetCompressionFields as Serialize>::self_delimited()
    }

    open spec fn valid(m: Self::Model) -> bool {
        <SetCompressionFields as Serialize>::valid(m)
    }

    open spec fn encode(m: Self::Model) -> Seq<u8> {
        <SetCompressionFields as Serialize>::encode(m)
    }

    open spec fn parse(s: Seq<u8>) -> Result<(Self::Model, nat), DeserializeError> {
        <SetCompressionFields as Serialize>::parse(s)
    }

    fn serialize(&self, buf: &mut Vec<u8>) {
        self.threshold.serialize(buf);
        assert(final(buf)@ =~= old(buf)@ + Self::encode(self.model()));
    }

    fn deserialize(buf: &[u8], pos: usize) -> (r: Result<(SetCompression, usize), DeserializeError>) {
        match <SetCompressionFields as Serialize>::deserialize(buf, pos) {
            Ok((threshold, p)) => {
                Ok((SetCompression { threshold }, p))
            },
            Err(e) => Err(e),
        }
    }

    proof fn lemma_round_trip(m: Self::Model, rest: Seq<u8>) {
        <SetCompressionFields as Serialize>::lemma_round_trip(m, rest);
    }

    proof fn lemma_parse_len(s: Seq<u8>) {
        <SetCompressionFields as Serialize>::lemma_parse_len(s);
    }
}

/// The fields of [`LoginPluginRequest`], in wire order.
pub type LoginPluginRequestFields = (VarInt, (String, Vec<u8>));

/// A request on a plugin channel.
#[derive(Debug, Clone)]
pub struct LoginPluginRequest {
    pub message_id: VarInt,
    pub channel: String,
    pub data: Vec<u8>,
}

impl Serialize for LoginPluginRequest {
    type Model = <LoginPluginRequestFields as Serialize>::Model;

    open spec fn model(&self) -> Self::Model {
        (self.message_id.model(), (self.channel.model(), self.data.model()))
    }

    open spec fn self_delimited() -> bool {
        <LoginPluginRequestFields as Serialize>::self_delimited()
    }

    open spec fn valid(m: Self::Model) -> bool {
        <LoginPluginRequestFields as Serialize>::valid(m)
    }

    open spec fn encode(m: Self::Model) -> Seq<u8> {
        <LoginPluginRequestFields as Serialize>::encode(m)
    }

    open spec fn parse(s: Seq<u8>) -> Result<(Self::Model, nat), DeserializeError> {
        <LoginPluginRequestFields as Serialize>::parse(s)
    }

    fn serialize(&self, buf: &mut Vec<u8>) {
        self.message_id.serialize(buf);
        self.channel.serialize(buf);
        self.data.serialize(buf);
        assert(final(buf)@ =~= old(buf)@ + Self::encode(self.model()));
    }

    fn deserialize(buf: &[u8], pos: usize) -> (r: Result<(LoginPluginRequest, usize), DeserializeError>) {
        match <LoginPluginRequestFields as Serialize>::deserialize(buf, pos) {
            Ok(((message_id, (channel, data)), p)) => {
                Ok((LoginPluginRequest { message_id, channel, data }, p))
            },
            Err(e) => Err(e),
        }
    }

    proof fn lemma_round_trip(m: Self::Model, rest: Seq<u8>) {
        <LoginPluginRequestFields as Serialize>::lemma_round_trip(m, rest);
    }

    proof fn lemma_parse_len(s: Seq<u8>) {
        <LoginPluginRequestFields as Serialize>::lemma_parse_len(s);
    }
}

/// The fields of [`SigData`], in wire order.
pub type SigDataFields = (i64, (Vec<u8>, Vec<u8>));

/// The expiry time, public key and signature of a player's key.
#[derive(Debug, Clone)]
pub struct SigData {
    pub timestamp: i64,
    pub public_key: Vec<u8>,
    pub signature: Vec<u8>,
}

impl Serialize for SigData {
    type Model = <SigDataFields as Serialize>::Model;

    open spec fn model(&self) -> Self::Model {
        (self.timestamp.model(), (self.public_key.model(), self.signature.model()))
    }

    open spec fn self_delimited() -> bool {
        <SigDataFields as Serialize>::self_delimited()
    }

    open spec fn valid(m: Self::Model) -> bool {
        <SigDataFields as Serialize>::valid(m)
    }

    open spec fn encode(m: Self::Model) -> Seq<u8> {
        <SigDataFields as Serialize>::encode(m)
    }

    open spec fn parse(s: Seq<u8>) -> Result<(Self::Model, nat), DeserializeError> {
        <SigDataFields as Serialize>::parse(s)
    }

    fn serialize(&self, buf: &mut Vec<u8>) {
        self.timestamp.serialize(buf);
        self.public_key.serialize(buf);
        self.signature.serialize(buf);
        assert(final(buf)@ =~= old(buf)@ + Self::encode(self.model()));
    }

    fn deserialize(buf: &[u8], pos: usize) -> (r: Result<(SigData, usize), DeserializeError>) {
        match <SigDataFields as Serialize>::deserialize(buf, pos) {
            Ok(((timestamp, (public_key, signature)), p)) => {
                Ok((SigData { timestamp, public_key, signature }, p))
            },
            Err(e) => Err(e),
        }
    }

    proof fn lemma_round_trip(m: Self::Model, rest: Seq<u8>) {
        <SigDataFields as Serialize>::lemma_round_trip(m, rest);
    }

    proof fn lemma_parse_len(s: Seq<u8>) {
        <SigDataFields as Serialize>::lemma_parse_len(s);
    }
}

/// The fields of [`SharedSecret`], in wire order.
pub type SharedSecretFields = Vec<u8>;

/// The shared secret, encrypted with the server's public key.
#[derive(Debug, Clone)]
pub struct SharedSecret {
    pub encrypted_secret: Vec<u8>,
}

impl Serialize for SharedSecret {
    type Model = <SharedSecretFields as Serialize>::Model;

    open spec fn model(&self) -> Self::Model {
        self.encrypted_secret.model()
    }

    open spec fn self_delimited() -> bool {
        <SharedSecretFields as Serialize>::self_delimited()
    }

    open spec fn valid(m: Self::Model) -> bool {
        <SharedSecretFields as Serialize>::valid(m)
    }

    open spec fn encode(m: Self::Model) -> Seq<u8> {
        <SharedSecretFields as Serialize>::encode(m)
    }

    open spec fn parse(s: Seq<u8>) -> Result<(Self::Model, nat), DeserializeError> {
        <SharedSecretFields as Serialize>::parse(s)
    }

    fn serialize(&self, buf: &mut Vec<u8>) {
        self.encrypted_secret.serialize(buf);
        assert(final(buf)@ =~= old(buf)@ + Self::encode(self.model()));
    }

    fn deserialize(buf: &[u8], pos: usize) -> (r: Result<(SharedSecret, usize), DeserializeError>) {
        match <SharedSecretFields as Serialize>::deserialize(buf, pos) {
            Ok((encrypted_secret, p)) => {
                Ok((SharedSecret { encrypted_secret }, p))
            },
            Err(e) => Err(e),
        }
    }

    proof fn lemma_round_trip(m: Self::Model, rest: Seq<u8>) {
        <SharedSecretFields as Serialize>::lemma_round_trip(m, rest);
    }

    proof fn lemma_parse_len(s: Seq<u8>) {
        <SharedSecretFields as Serialize>::lemma_parse_len(s);
    }
}

/// The fields of [`EncryptedVerifyToken`], in wire order.
pub type EncryptedVerifyTokenFields = Vec<u8>;

/// The verify token, encrypted with the server's public key.
#[derive(Debug, Clone)]
pub struct EncryptedVerifyToken {
    pub encrypted_token: Vec<u8>,
}

impl Serialize for EncryptedVerifyToken {
    type Model = <EncryptedVerifyTokenFields as Serialize>::Model;

    open spec fn model(&self) -> Self::Model {
        self.encrypted_token.model()
    }

    open spec fn self_delimited() -> bool {
        <EncryptedVerifyTokenFields as Serialize>::self_delimited()
    }

    open spec fn valid(m: Self::Model) -> bool {
        <EncryptedVerifyTokenFields as Serialize>::valid(m)
    }

    open spec fn encode(m: Self::Model) -> Seq<u8> {
        <EncryptedVerifyTokenFields as Serialize>::encode(m)
    }

    open spec fn parse(s: Seq<u8>) -> Result<(Self::Model, nat), DeserializeError> {
        <EncryptedVerifyTokenFields as Serialize>::parse(s)
    }

    fn serialize(&self, buf: &mut Vec<u8>) {
        self.encrypted_token.serialize(buf);
        assert(final(buf)@ =~= old(buf)@ + Self::encode(self.model()));
    }

    fn deserialize(buf: &[u8], pos: usize) -> (r: Result<(EncryptedVerifyToken, usize), DeserializeError>) {
        match <EncryptedVerifyTokenFields as Serialize>::deserialize(buf, pos) {
            Ok((encrypted_token, p)) => {
                Ok((EncryptedVerifyToken { encrypted_token }, p))
            },
            Err(e) => Err(e),
        }
    }

    proof fn lemma_round_trip(m: Self::Model, rest: Seq<u8>) {
        <EncryptedVerifyTokenFields as Serialize>::lemma_round_trip(m, rest);
    }

    proof fn lemma_parse_len(s: Seq<u8>) {
        <EncryptedVerifyTokenFields as Serialize>::lemma_parse_len(s);
    }
}

/// The fields of [`SaltSignature`], in wire order.
pub type SaltSignatureFields = (i64, Vec<u8>);

/// A salt and the signature made with it.
#[derive(Debug, Clone)]
pub struct SaltSignature {
    pub salt: i64,
    pub signature: Vec<u8>,
}

impl Serialize for SaltSignature {
    type Model = <SaltSignatureFields as Serialize>::Model;

    open spec fn model(&self) -> Self::Model {
        (self.salt.model(), self.signature.model())
    }

    open spec fn self_delimited() -> bool {
        <SaltSignatureFields as Serialize>::self_delimited()
    }

    open spec fn valid(m: Self::Model) -> bool {
        <SaltSignatureFields as Serialize>::valid(m)
    }

    open spec fn encode(m: Self::Model) -> Seq<u8> {
        <SaltSignatureFields as Serialize>::encode(m)
    }

    open spec fn parse(s: Seq<u8>) -> Result<(Self::Model, nat), DeserializeError> {
        <SaltSignatureFields as Serialize>::parse(s)
    }

    fn serialize(&self, buf: &mut Vec<u8>) {
        self.salt.serialize(buf);
        self.signature.serialize(buf);
        assert(final(buf)@ =~= old(buf)@ + Self::encode(self.model()));
    }

    fn deserialize(buf: &[u8], pos: usize) -> (r: Result<(SaltSignature, usize), DeserializeError>) {
        match <SaltSignatureFields as Serialize>::deserialize(buf, pos) {
            Ok(((salt, signature), p)) => {
                Ok((SaltSignature { salt, signature }, p))
            },
            Err(e) => Err(e),
        }
    }

    proof fn lemma_round_trip(m: Self::Model, rest: Seq<u8>) {
        <SaltSignatureFields as Serialize>::lemma_round_trip(m, rest);
    }

    proof fn lemma_parse_len(s: Seq<u8>) {
        <SaltSignatureFields as Serialize>::lemma_parse_len(s);
    }
}

/// The fields of [`VerifyToken`], in wire order.
pub type VerifyTokenFields = Vec<u8>;

/// The token that the client sends back encrypted.
#[derive(Debug, Clone)]
pub struct VerifyToken {
    pub verify_token: Vec<u8>,
}

impl Serialize for VerifyToken {
    type Model = <VerifyTokenFields as Serialize>::Model;

    open spec fn model(&self) -> Self::Model {
        self.verify_token.model()
    }

    open spec fn self_delimited() -> bool {
        <VerifyTokenFields as Serialize>::self_delimited()
    }

    open spec fn valid(m: Self::Model) -> bool {
        <VerifyTokenFields as Serialize>::valid(m)
    }

    open spec fn encode(m: Self::Model) -> Seq<u8> {
        <VerifyTokenFields as Serialize>::encode(m)
    }

    open spec fn parse(s: Seq<u8>) -> Result<(Self::Model, nat), DeserializeError> {
        <VerifyTokenFields as Serialize>::parse(s)
    }

    fn serialize(&self, buf: &mut Vec<u8>) {
        self.verify_token.serialize(buf);
        assert(final(buf)@ =~= old(buf)@ + Self::encode(self.model()));
    }

    fn deserialize(buf: &[u8], pos: usize) -> (r: Result<(VerifyToken, usize), DeserializeError>) {
        match <VerifyTokenFields as Serialize>::deserialize(buf, pos) {
            Ok((verify_token, p)) => {
                Ok((VerifyToken { verify_token }, p))
            },
            Err(e) => Err(e),
        }
    }

    proof fn lemma_round_trip(m: Self::Model, rest: Seq<u8>) {
        <VerifyTokenFields as Serialize>::lemma_round_trip(m, rest);
    }

    proof fn lemma_parse_len(s: Seq<u8>) {
        <VerifyTokenFields as Serialize>::lemma_parse_len(s);
    }
}

/// The fields of [`LoginSuccessProperty`], in wire order.
pub type LoginSuccessPropertyFields = (String, (String, Option<String>));

/// A profile property, with its signature where it has one.
#[derive(Debug, Clone)]
pub struct LoginSuccessProperty {
    pub name: String,
    pub value: String,
    pub signature: Option<String>,
}

impl Serialize for LoginSuccessProperty {
    type Model = <LoginSuccessPropertyFields as Serialize>::Model;

    open spec fn model(&self) -> Self::Model {
        (self.name.model(), (self.value.model(), self.signature.model()))
    }

    open spec fn self_delimited() -> bool {
        <LoginSuccessPropertyFields as Serialize>::self_delimited()
    }

    open spec fn valid(m: Self::Model) -> bool {
        <LoginSuccessPropertyFields as Serialize>::valid(m)
    }

    open spec fn encode(m: Self::Model) -> Seq<u8> {
        <LoginSuccessPropertyFields as Serialize>::encode(m)
    }

    open spec fn parse(s: Seq<u8>) -> Result<(Self::Model, nat), DeserializeError> {
        <LoginSuccessPropertyFields as Serialize>::parse(s)
    }

    fn serialize(&self, buf: &mut Vec<u8>) {
        self.name.serialize(buf);
        self.value.serialize(buf);
        self.signature.serialize(buf);
        assert(final(buf)@ =~= old(buf)@ + Self::encode(self.model()));
    }

    fn deserialize(buf: &[u8], pos: usize) -> (r: Result<(LoginSuccessProperty, usize), DeserializeError>) {
        match <LoginSuccessPropertyFields as Serialize>::deserialize(buf, pos) {
            Ok(((name, (value, signature)), p)) => {
                Ok((LoginSuccessProperty { name, value, signature }, p))
            },
            Err(e) => Err(e),
        }
    }

    proof fn lemma_round_trip(m: Self::Model, rest: Seq<u8>) {
        <LoginSuccessPropertyFields as Serialize>::lemma_round_trip(m, rest);
    }

    proof fn lemma_parse_len(s: Seq<u8>) {
        <LoginSuccessPropertyFields as Serialize>::lemma_parse_len(s);
    }
}

} // verus!
