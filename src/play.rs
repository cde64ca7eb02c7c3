//! Packets of the play state.
use vstd::prelude::*;

use crate::error::DeserializeError;
use crate::state::{Bound, State};
use crate::types::Serialize;
use crate::varint::{
    lemma_parse_varint_len, lemma_varint_round_trip, parse_varint, rest_of, varint_bytes,
    VarInt,
};
use crate::compound::InferredLenByteArray;
use crate::position::Position;

verus! {

/// A packet of the play state.
pub enum Play {
    ConfirmTeleportation(ConfirmTeleportation),
    QueryBlockEntityTag(QueryBlockEntityTag),
    ChangeDifficulty(ChangeDifficulty),
    ChatCommand(ChatCommand),
    ChatMessage(ChatMessage),
    ChatPreview(ChatPreview),
    ClientCommand(ClientCommand),
    ClientInformation(ClientInformation),
    CommandSuggestionsRequest(CommandSuggestionsRequest),
    ClickContainerButton(ClickContainerButton),
    CloseContainer(CloseContainer),
    ServerboundPluginMessage(ServerboundPluginMessage),
    EditBook(EditBook),
    QueryEntityTag(QueryEntityTag),
    JigsawGenerate(JigsawGenerate),
    ServerboundKeepAlive(ServerboundKeepAlive),
    LockDifficulty(LockDifficulty),
    SetPlayerOnGround(SetPlayerOnGround),
    PaddleBoat(PaddleBoat),
    PickItem(PickItem),
    PlaceRecipe(PlaceRecipe),
    PlayerAbilities(PlayerAbilities),
    PlayerAction(PlayerAction),
    PlayerCommand(PlayerCommand),
    Pong(Pong),
    EntityAnimation(EntityAnimation),
}

/// The packets of this state as values: each holds its packet's fields.
pub enum PlayModel {
    ConfirmTeleportation(<ConfirmTeleportation as Serialize>::Model),
    QueryBlockEntityTag(<QueryBlockEntityTag as Serialize>::Model),
    ChangeDifficulty(<ChangeDifficulty as Serialize>::Model),
    ChatCommand(<ChatCommand as Serialize>::Model),
    ChatMessage(<ChatMessage as Serialize>::Model),
    ChatPreview(<ChatPreview as Serialize>::Model),
    ClientCommand(<ClientCommand as Serialize>::Model),
    ClientInformation(<ClientInformation as Serialize>::Model),
    CommandSuggestionsRequest(<CommandSuggestionsRequest as Serialize>::Model),
    ClickContainerButton(<ClickContainerButton as Serialize>::Model),
    CloseContainer(<CloseContainer as Serialize>::Model),
    ServerboundPluginMessage(<ServerboundPluginMessage as Serialize>::Model),
    EditBook(<EditBook as Serialize>::Model),
    QueryEntityTag(<QueryEntityTag as Serialize>::Model),
    JigsawGenerate(<JigsawGenerate as Serialize>::Model),
    ServerboundKeepAlive(<ServerboundKeepAlive as Serialize>::Model),
    LockDifficulty(<LockDifficulty as Serialize>::Model),
    SetPlayerOnGround(<SetPlayerOnGround as Serialize>::Model),
    PaddleBoat(<PaddleBoat as Serialize>::Model),
    PickItem(<PickItem as Serialize>::Model),
    PlaceRecipe(<PlaceRecipe as Serialize>::Model),
    PlayerAbilities(<PlayerAbilities as Serialize>::Model),
    PlayerAction(<PlayerAction as Serialize>::Model),
    PlayerCommand(<PlayerCommand as Serialize>::Model),
    Pong(<Pong as Serialize>::Model),
    EntityAnimation(<EntityAnimation as Serialize>::Model),
}

impl Play {
    pub open spec fn model(&self) -> PlayModel {
        match self {
            Play::ConfirmTeleportation(p) => PlayModel::ConfirmTeleportation(p.model()),
            Play::QueryBlockEntityTag(p) => PlayModel::QueryBlockEntityTag(p.model()),
            Play::ChangeDifficulty(p) => PlayModel::ChangeDifficulty(p.model()),
            Play::ChatCommand(p) => PlayModel::ChatCommand(p.model()),
            Play::ChatMessage(p) => PlayModel::ChatMessage(p.model()),
            Play::ChatPreview(p) => PlayModel::ChatPreview(p.model()),
            Play::ClientCommand(p) => PlayModel::ClientCommand(p.model()),
            Play::ClientInformation(p) => PlayModel::ClientInformation(p.model()),
            Play::CommandSuggestionsRequest(p) => PlayModel::CommandSuggestionsRequest(p.model()),
            Play::ClickContainerButton(p) => PlayModel::ClickContainerButton(p.model()),
            Play::CloseContainer(p) => PlayModel::CloseContainer(p.model()),
            Play::ServerboundPluginMessage(p) => PlayModel::ServerboundPluginMessage(p.model()),
            Play::EditBook(p) => PlayModel::EditBook(p.model()),
            Play::QueryEntityTag(p) => PlayModel::QueryEntityTag(p.model()),
            Play::JigsawGenerate(p) => PlayModel::JigsawGenerate(p.model()),
            Play::ServerboundKeepAlive(p) => PlayModel::ServerboundKeepAlive(p.model()),
            Play::LockDifficulty(p) => PlayModel::LockDifficulty(p.model()),
            Play::SetPlayerOnGround(p) => PlayModel::SetPlayerOnGround(p.model()),
            Play::PaddleBoat(p) => PlayModel::PaddleBoat(p.model()),
            Play::PickItem(p) => PlayModel::PickItem(p.model()),
            Play::PlaceRecipe(p) => PlayModel::PlaceRecipe(p.model()),
            Play::PlayerAbilities(p) => PlayModel::PlayerAbilities(p.model()),
            Play::PlayerAction(p) => PlayModel::PlayerAction(p.model()),
            Play::PlayerCommand(p) => PlayModel::PlayerCommand(p.model()),
            Play::Pong(p) => PlayModel::Pong(p.model()),
            Play::EntityAnimation(p) => PlayModel::EntityAnimation(p.model()),
        }
    }

    /// The packet id of `m`.
    pub open spec fn spec_id(m: PlayModel) -> i32 {
        match m {
            PlayModel::ConfirmTeleportation(_) => 0,
            PlayModel::QueryBlockEntityTag(_) => 1,
            PlayModel::ChangeDifficulty(_) => 2,
            PlayModel::ChatCommand(_) => 3,
            PlayModel::ChatMessage(_) => 4,
            PlayModel::ChatPreview(_) => 5,
            PlayModel::ClientCommand(_) => 6,
            PlayModel::ClientInformation(_) => 7,
            PlayModel::CommandSuggestionsRequest(_) => 8,
            PlayModel::ClickContainerButton(_) => 9,
            PlayModel::CloseContainer(_) => 11,
            PlayModel::ServerboundPluginMessage(_) => 12,
            PlayModel::EditBook(_) => 13,
            PlayModel::QueryEntityTag(_) => 14,
            PlayModel::JigsawGenerate(_) => 16,
            PlayModel::ServerboundKeepAlive(_) => 17,
            PlayModel::LockDifficulty(_) => 18,
            PlayModel::SetPlayerOnGround(_) => 22,
            PlayModel::PaddleBoat(_) => 24,
            PlayModel::PickItem(_) => 25,
            PlayModel::PlaceRecipe(_) => 26,
            PlayModel::PlayerAbilities(_) => 27,
            PlayModel::PlayerAction(_) => 28,
            PlayModel::PlayerCommand(_) => 29,
            PlayModel::Pong(_) => 31,
            PlayModel::EntityAnimation(_) => 3,
        }
    }

    /// The direction that `m` travels in.
    pub open spec fn spec_bound(m: PlayModel) -> Bound {
        match m {
            PlayModel::ConfirmTeleportation(_) => Bound::Serverbound,
            PlayModel::QueryBlockEntityTag(_) => Bound::Serverbound,
            PlayModel::ChangeDifficulty(_) => Bound::Serverbound,
            PlayModel::ChatCommand(_) => Bound::Serverbound,
            PlayModel::ChatMessage(_) => Bound::Serverbound,
            PlayModel::ChatPreview(_) => Bound::Serverbound,
            PlayModel::ClientCommand(_) => Bound::Serverbound,
            PlayModel::ClientInformation(_) => Bound::Serverbound,
            PlayModel::CommandSuggestionsRequest(_) => Bound::Serverbound,
            PlayModel::ClickContainerButton(_) => Bound::Serverbound,
            PlayModel::CloseContainer(_) => Bound::Serverbound,
            PlayModel::ServerboundPluginMessage(_) => Bound::Serverbound,
            PlayModel::EditBook(_) => Bound::Serverbound,
            PlayModel::QueryEntityTag(_) => Bound::Serverbound,
            PlayModel::JigsawGenerate(_) => Bound::Serverbound,
            PlayModel::ServerboundKeepAlive(_) => Bound::Serverbound,
            PlayModel::LockDifficulty(_) => Bound::Serverbound,
            PlayModel::SetPlayerOnGround(_) => Bound::Serverbound,
            PlayModel::PaddleBoat(_) => Bound::Serverbound,
            PlayModel::PickItem(_) => Bound::Serverbound,
            PlayModel::PlaceRecipe(_) => Bound::Serverbound,
            PlayModel::PlayerAbilities(_) => Bound::Serverbound,
            PlayModel::PlayerAction(_) => Bound::Serverbound,
            PlayModel::PlayerCommand(_) => Bound::Serverbound,
            PlayModel::Pong(_) => Bound::Serverbound,
            PlayModel::EntityAnimation(_) => Bound::Clientbound,
        }
    }

    /// Packets whose fields the codec can write.
    pub open spec fn spec_valid(m: PlayModel) -> bool {
        match m {
            PlayModel::ConfirmTeleportation(x) => <ConfirmTeleportation as Serialize>::valid(x),
            PlayModel::QueryBlockEntityTag(x) => <QueryBlockEntityTag as Serialize>::valid(x),
            PlayModel::ChangeDifficulty(x) => <ChangeDifficulty as Serialize>::valid(x),
            PlayModel::ChatCommand(x) => <ChatCommand as Serialize>::valid(x),
            PlayModel::ChatMessage(x) => <ChatMessage as Serialize>::valid(x),
            PlayModel::ChatPreview(x) => <ChatPreview as Serialize>::valid(x),
            PlayModel::ClientCommand(x) => <ClientCommand as Serialize>::valid(x),
            PlayModel::ClientInformation(x) => <ClientInformation as Serialize>::valid(x),
            PlayModel::CommandSuggestionsRequest(x) => <CommandSuggestionsRequest as Serialize>::valid(x),
            PlayModel::ClickContainerButton(x) => <ClickContainerButton as Serialize>::valid(x),
            PlayModel::CloseContainer(x) => <CloseContainer as Serialize>::valid(x),
            PlayModel::ServerboundPluginMessage(x) => <ServerboundPluginMessage as Serialize>::valid(x),
            PlayModel::EditBook(x) => <EditBook as Serialize>::valid(x),
            PlayModel::QueryEntityTag(x) => <QueryEntityTag as Serialize>::valid(x),
            PlayModel::JigsawGenerate(x) => <JigsawGenerate as Serialize>::valid(x),
            PlayModel::ServerboundKeepAlive(x) => <ServerboundKeepAlive as Serialize>::valid(x),
            PlayModel::LockDifficulty(x) => <LockDifficulty as Serialize>::valid(x),
            PlayModel::SetPlayerOnGround(x) => <SetPlayerOnGround as Serialize>::valid(x),
            PlayModel::PaddleBoat(x) => <PaddleBoat as Serialize>::valid(x),
            PlayModel::PickItem(x) => <PickItem as Serialize>::valid(x),
            PlayModel::PlaceRecipe(x) => <PlaceRecipe as Serialize>::valid(x),
            PlayModel::PlayerAbilities(x) => <PlayerAbilities as Serialize>::valid(x),
            PlayModel::PlayerAction(x) => <PlayerAction as Serialize>::valid(x),
            PlayModel::PlayerCommand(x) => <PlayerCommand as Serialize>::valid(x),
            PlayModel::Pong(x) => <Pong as Serialize>::valid(x),
            PlayModel::EntityAnimation(x) => <EntityAnimation as Serialize>::valid(x),
        }
    }

    /// The bytes of the body of `m`.
    pub open spec fn spec_body(m: PlayModel) -> Seq<u8> {
        match m {
            PlayModel::ConfirmTeleportation(x) => <ConfirmTeleportation as Serialize>::encode(x),
            PlayModel::QueryBlockEntityTag(x) => <QueryBlockEntityTag as Serialize>::encode(x),
            PlayModel::ChangeDifficulty(x) => <ChangeDifficulty as Serialize>::encode(x),
            PlayModel::ChatCommand(x) => <ChatCommand as Serialize>::encode(x),
            PlayModel::ChatMessage(x) => <ChatMessage as Serialize>::encode(x),
            PlayModel::ChatPreview(x) => <ChatPreview as Serialize>::encode(x),
            PlayModel::ClientCommand(x) => <ClientCommand as Serialize>::encode(x),
            PlayModel::ClientInformation(x) => <ClientInformation as Serialize>::encode(x),
            PlayModel::CommandSuggestionsRequest(x) => <CommandSuggestionsRequest as Serialize>::encode(x),
            PlayModel::ClickContainerButton(x) => <ClickContainerButton as Serialize>::encode(x),
            PlayModel::CloseContainer(x) => <CloseContainer as Serialize>::encode(x),
            PlayModel::ServerboundPluginMessage(x) => <ServerboundPluginMessage as Serialize>::encode(x),
            PlayModel::EditBook(x) => <EditBook as Serialize>::encode(x),
            PlayModel::QueryEntityTag(x) => <QueryEntityTag as Serialize>::encode(x),
            PlayModel::JigsawGenerate(x) => <JigsawGenerate as Serialize>::encode(x),
            PlayModel::ServerboundKeepAlive(x) => <ServerboundKeepAlive as Serialize>::encode(x),
            PlayModel::LockDifficulty(x) => <LockDifficulty as Serialize>::encode(x),
            PlayModel::SetPlayerOnGround(x) => <SetPlayerOnGround as Serialize>::encode(x),
            PlayModel::PaddleBoat(x) => <PaddleBoat as Serialize>::encode(x),
            PlayModel::PickItem(x) => <PickItem as Serialize>::encode(x),
            PlayModel::PlaceRecipe(x) => <PlaceRecipe as Serialize>::encode(x),
            PlayModel::PlayerAbilities(x) => <PlayerAbilities as Serialize>::encode(x),
            PlayModel::PlayerAction(x) => <PlayerAction as Serialize>::encode(x),
            PlayModel::PlayerCommand(x) => <PlayerCommand as Serialize>::encode(x),
            PlayModel::Pong(x) => <Pong as Serialize>::encode(x),
            PlayModel::EntityAnimation(x) => <EntityAnimation as Serialize>::encode(x),
        }
    }

    /// Whether a packet with `id` travels in direction `bound` in this state.
    pub open spec fn spec_known(bound: Bound, id: i32) -> bool {
        match bound {
            Bound::Serverbound => id == 0 || id == 1 || id == 2 || id == 3 || id == 4 || id == 5 || id == 6 || id == 7 || id == 8 || id == 9 || id == 11 || id == 12 || id == 13 || id == 14 || id == 16 || id == 17 || id == 18 || id == 22 || id == 24 || id == 25 || id == 26 || id == 27 || id == 28 || id == 29 || id == 31,
            Bound::Clientbound => id == 3,
        }
    }

    /// Reads the body of the packet with `id` travelling in direction `bound`.
    pub open spec fn spec_parse(bound: Bound, id: i32, s: Seq<u8>) -> Result<
        (PlayModel, nat),
        DeserializeError,
    > {
        match bound {
            Bound::Serverbound => match id {
                0 => match <ConfirmTeleportation as Serialize>::parse(s) {
                    Ok((x, n)) => Ok((PlayModel::ConfirmTeleportation(x), n)),
                    Err(e) => Err(e),
                },
                1 => match <QueryBlockEntityTag as Serialize>::parse(s) {
                    Ok((x, n)) => Ok((PlayModel::QueryBlockEntityTag(x), n)),
                    Err(e) => Err(e),
                },
                2 => match <ChangeDifficulty as Serialize>::parse(s) {
                    Ok((x, n)) => Ok((PlayModel::ChangeDifficulty(x), n)),
                    Err(e) => Err(e),
                },
                3 => match <ChatCommand as Serialize>::parse(s) {
                    Ok((x, n)) => Ok((PlayModel::ChatCommand(x), n)),
                    Err(e) => Err(e),
                },
                4 => match <ChatMessage as Serialize>::parse(s) {
                    Ok((x, n)) => Ok((PlayModel::ChatMessage(x), n)),
                    Err(e) => Err(e),
                },
                5 => match <ChatPreview as Serialize>::parse(s) {
                    Ok((x, n)) => Ok((PlayModel::ChatPreview(x), n)),
                    Err(e) => Err(e),
                },
                6 => match <ClientCommand as Serialize>::parse(s) {
                    Ok((x, n)) => Ok((PlayModel::ClientCommand(x), n)),
                    Err(e) => Err(e),
                },
                7 => match <ClientInformation as Serialize>::parse(s) {
                    Ok((x, n)) => Ok((PlayModel::ClientInformation(x), n)),
                    Err(e) => Err(e),
                },
                8 => match <CommandSuggestionsRequest as Serialize>::parse(s) {
                    Ok((x, n)) => Ok((PlayModel::CommandSuggestionsRequest(x), n)),
                    Err(e) => Err(e),
                },
                9 => match <ClickContainerButton as Serialize>::parse(s) {
                    Ok((x, n)) => Ok((PlayModel::ClickContainerButton(x), n)),
                    Err(e) => Err(e),
                },
                11 => match <CloseContainer as Serialize>::parse(s) {
                    Ok((x, n)) => Ok((PlayModel::CloseContainer(x), n)),
                    Err(e) => Err(e),
                },
                12 => match <ServerboundPluginMessage as Serialize>::parse(s) {
                    Ok((x, n)) => Ok((PlayModel::ServerboundPluginMessage(x), n)),
                    Err(e) => Err(e),
                },
                13 => match <EditBook as Serialize>::parse(s) {
                    Ok((x, n)) => Ok((PlayModel::EditBook(x), n)),
                    Err(e) => Err(e),
                },
                14 => match <QueryEntityTag as Serialize>::parse(s) {
                    Ok((x, n)) => Ok((PlayModel::QueryEntityTag(x), n)),
                    Err(e) => Err(e),
                },
                16 => match <JigsawGenerate as Serialize>::parse(s) {
                    Ok((x, n)) => Ok((PlayModel::JigsawGenerate(x), n)),
                    Err(e) => Err(e),
                },
                17 => match <ServerboundKeepAlive as Serialize>::parse(s) {
                    Ok((x, n)) => Ok((PlayModel::ServerboundKeepAlive(x), n)),
                    Err(e) => Err(e),
                },
                18 => match <LockDifficulty as Serialize>::parse(s) {
                    Ok((x, n)) => Ok((PlayModel::LockDifficulty(x), n)),
                    Err(e) => Err(e),
                },
                22 => match <SetPlayerOnGround as Serialize>::parse(s) {
                    Ok((x, n)) => Ok((PlayModel::SetPlayerOnGround(x), n)),
                    Err(e) => Err(e),
                },
                24 => match <PaddleBoat as Serialize>::parse(s) {
                    Ok((x, n)) => Ok((PlayModel::PaddleBoat(x), n)),
                    Err(e) => Err(e),
                },
                25 => match <PickItem as Serialize>::parse(s) {
                    Ok((x, n)) => Ok((PlayModel::PickItem(x), n)),
                    Err(e) => Err(e),
                },
                26 => match <PlaceRecipe as Serialize>::parse(s) {
                    Ok((x, n)) => Ok((PlayModel::PlaceRecipe(x), n)),
                    Err(e) => Err(e),
                },
                27 => match <PlayerAbilities as Serialize>::parse(s) {
                    Ok((x, n)) => Ok((PlayModel::PlayerAbilities(x), n)),
                    Err(e) => Err(e),
                },
                28 => match <PlayerAction as Serialize>::parse(s) {
                    Ok((x, n)) => Ok((PlayModel::PlayerAction(x), n)),
                    Err(e) => Err(e),
                },
                29 => match <PlayerCommand as Serialize>::parse(s) {
                    Ok((x, n)) => Ok((PlayModel::PlayerCommand(x), n)),
                    Err(e) => Err(e),
                },
                31 => match <Pong as Serialize>::parse(s) {
                    Ok((x, n)) => Ok((PlayModel::Pong(x), n)),
                    Err(e) => Err(e),
                },
                _ => Err(DeserializeError::UnknownPacketId(bound, State::Play, id)),
            },
            Bound::Clientbound => match id {
                3 => match <EntityAnimation as Serialize>::parse(s) {
                    Ok((x, n)) => Ok((PlayModel::EntityAnimation(x), n)),
                    Err(e) => Err(e),
                },
                _ => Err(DeserializeError::UnknownPacketId(bound, State::Play, id)),
            },
        }
    }

    /// The packet id of this packet.
    pub fn id(&self) -> (r: i32)
        ensures
            r == Self::spec_id(self.model()),
    {
        match self {
            Play::ConfirmTeleportation(_) => 0,
            Play::QueryBlockEntityTag(_) => 1,
            Play::ChangeDifficulty(_) => 2,
            Play::ChatCommand(_) => 3,
            Play::ChatMessage(_) => 4,
            Play::ChatPreview(_) => 5,
            Play::ClientCommand(_) => 6,
            Play::ClientInformation(_) => 7,
            Play::CommandSuggestionsRequest(_) => 8,
            Play::ClickContainerButton(_) => 9,
            Play::CloseContainer(_) => 11,
            Play::ServerboundPluginMessage(_) => 12,
            Play::EditBook(_) => 13,
            Play::QueryEntityTag(_) => 14,
            Play::JigsawGenerate(_) => 16,
            Play::ServerboundKeepAlive(_) => 17,
            Play::LockDifficulty(_) => 18,
            Play::SetPlayerOnGround(_) => 22,
            Play::PaddleBoat(_) => 24,
            Play::PickItem(_) => 25,
            Play::PlaceRecipe(_) => 26,
            Play::PlayerAbilities(_) => 27,
            Play::PlayerAction(_) => 28,
            Play::PlayerCommand(_) => 29,
            Play::Pong(_) => 31,
            Play::EntityAnimation(_) => 3,
        }
    }

    /// Appends the body of this packet to `buf`.
    pub fn serialize_body(&self, buf: &mut Vec<u8>)
        requires
            Self::spec_valid(self.model()),
        ensures
            final(buf)@ == old(buf)@ + Self::spec_body(self.model()),
    {
        match self {
            Play::ConfirmTeleportation(p) => p.serialize(buf),
            Play::QueryBlockEntityTag(p) => p.serialize(buf),
            Play::ChangeDifficulty(p) => p.serialize(buf),
            Play::ChatCommand(p) => p.serialize(buf),
            Play::ChatMessage(p) => p.serialize(buf),
            Play::ChatPreview(p) => p.serialize(buf),
            Play::ClientCommand(p) => p.serialize(buf),
            Play::ClientInformation(p) => p.serialize(buf),
            Play::CommandSuggestionsRequest(p) => p.serialize(buf),
            Play::ClickContainerButton(p) => p.serialize(buf),
            Play::CloseContainer(p) => p.serialize(buf),
            Play::ServerboundPluginMessage(p) => p.serialize(buf),
            Play::EditBook(p) => p.serialize(buf),
            Play::QueryEntityTag(p) => p.serialize(buf),
            Play::JigsawGenerate(p) => p.serialize(buf),
            Play::ServerboundKeepAlive(p) => p.serialize(buf),
            Play::LockDifficulty(p) => p.serialize(buf),
            Play::SetPlayerOnGround(p) => p.serialize(buf),
            Play::PaddleBoat(p) => p.serialize(buf),
            Play::PickItem(p) => p.serialize(buf),
            Play::PlaceRecipe(p) => p.serialize(buf),
            Play::PlayerAbilities(p) => p.serialize(buf),
            Play::PlayerAction(p) => p.serialize(buf),
            Play::PlayerCommand(p) => p.serialize(buf),
            Play::Pong(p) => p.serialize(buf),
            Play::EntityAnimation(p) => p.serialize(buf),
        }
    }

    /// Reads at `buf[pos..]` the body of the packet with `id` travelling in
    /// direction `bound`: the packet and the position after it.
    #[verifier::spinoff_prover]
    #[verifier::rlimit(80)]
    pub fn deserialize(bound: Bound, id: i32, buf: &[u8], pos: usize) -> (r: Result<
        (Play, usize),
        DeserializeError,
    >)
        requires
            pos <= buf@.len(),
        ensures
            match r {
                Ok((v, p)) => {
                    &&& pos <= p <= buf@.len()
                    &&& Self::spec_parse(bound, id, rest_of(buf@, pos)) == Ok::<
                        (PlayModel, nat),
                        DeserializeError,
                    >((v.model(), (p - pos) as nat))
                },
                Err(e) => Self::spec_parse(bound, id, rest_of(buf@, pos)) == Err::<
                    (PlayModel, nat),
                    DeserializeError,
                >(e),
            },
    {
        match bound {
            Bound::Serverbound => match id {
                0 => match <ConfirmTeleportation as Serialize>::deserialize(buf, pos) {
                    Ok((x, p)) => Ok((Play::ConfirmTeleportation(x), p)),
                    Err(e) => Err(e),
                },
                1 => match <QueryBlockEntityTag as Serialize>::deserialize(buf, pos) {
                    Ok((x, p)) => Ok((Play::QueryBlockEntityTag(x), p)),
                    Err(e) => Err(e),
                },
                2 => match <ChangeDifficulty as Serialize>::deserialize(buf, pos) {
                    Ok((x, p)) => Ok((Play::ChangeDifficulty(x), p)),
                    Err(e) => Err(e),
                },
                3 => match <ChatCommand as Serialize>::deserialize(buf, pos) {
                    Ok((x, p)) => Ok((Play::ChatCommand(x), p)),
                    Err(e) => Err(e),
                },
                4 => match <ChatMessage as Serialize>::deserialize(buf, pos) {
                    Ok((x, p)) => Ok((Play::ChatMessage(x), p)),
                    Err(e) => Err(e),
                },
                5 => match <ChatPreview as Serialize>::deserialize(buf, pos) {
                    Ok((x, p)) => Ok((Play::ChatPreview(x), p)),
                    Err(e) => Err(e),
                },
                6 => match <ClientCommand as Serialize>::deserialize(buf, pos) {
                    Ok((x, p)) => Ok((Play::ClientCommand(x), p)),
                    Err(e) => Err(e),
                },
                7 => match <ClientInformation as Serialize>::deserialize(buf, pos) {
                    Ok((x, p)) => Ok((Play::ClientInformation(x), p)),
                    Err(e) => Err(e),
                },
                8 => match <CommandSuggestionsRequest as Serialize>::deserialize(buf, pos) {
                    Ok((x, p)) => Ok((Play::CommandSuggestionsRequest(x), p)),
                    Err(e) => Err(e),
                },
                9 => match <ClickContainerButton as Serialize>::deserialize(buf, pos) {
                    Ok((x, p)) => Ok((Play::ClickContainerButton(x), p)),
                    Err(e) => Err(e),
                },
                11 => match <CloseContainer as Serialize>::deserialize(buf, pos) {
                    Ok((x, p)) => Ok((Play::CloseContainer(x), p)),
                    Err(e) => Err(e),
                },
                12 => match <ServerboundPluginMessage as Serialize>::deserialize(buf, pos) {
                    Ok((x, p)) => Ok((Play::ServerboundPluginMessage(x), p)),
                    Err(e) => Err(e),
                },
                13 => match <EditBook as Serialize>::deserialize(buf, pos) {
                    Ok((x, p)) => Ok((Play::EditBook(x), p)),
                    Err(e) => Err(e),
                },
                14 => match <QueryEntityTag as Serialize>::deserialize(buf, pos) {
                    Ok((x, p)) => Ok((Play::QueryEntityTag(x), p)),
                    Err(e) => Err(e),
                },
                16 => match <JigsawGenerate as Serialize>::deserialize(buf, pos) {
                    Ok((x, p)) => Ok((Play::JigsawGenerate(x), p)),
                    Err(e) => Err(e),
                },
                17 => match <ServerboundKeepAlive as Serialize>::deserialize(buf, pos) {
                    Ok((x, p)) => Ok((Play::ServerboundKeepAlive(x), p)),
                    Err(e) => Err(e),
                },
                18 => match <LockDifficulty as Serialize>::deserialize(buf, pos) {
                    Ok((x, p)) => Ok((Play::LockDifficulty(x), p)),
                    Err(e) => Err(e),
                },
                22 => match <SetPlayerOnGround as Serialize>::deserialize(buf, pos) {
                    Ok((x, p)) => Ok((Play::SetPlayerOnGround(x), p)),
                    Err(e) => Err(e),
                },
                24 => match <PaddleBoat as Serialize>::deserialize(buf, pos) {
                    Ok((x, p)) => Ok((Play::PaddleBoat(x), p)),
                    Err(e) => Err(e),
                },
                25 => match <PickItem as Serialize>::deserialize(buf, pos) {
                    Ok((x, p)) => Ok((Play::PickItem(x), p)),
                    Err(e) => Err(e),
                },
                26 => match <PlaceRecipe as Serialize>::deserialize(buf, pos) {
                    Ok((x, p)) => Ok((Play::PlaceRecipe(x), p)),
                    Err(e) => Err(e),
                },
                27 => match <PlayerAbilities as Serialize>::deserialize(buf, pos) {
                    Ok((x, p)) => Ok((Play::PlayerAbilities(x), p)),
                    Err(e) => Err(e),
                },
                28 => match <PlayerAction as Serialize>::deserialize(buf, pos) {
                    Ok((x, p)) => Ok((Play::PlayerAction(x), p)),
                    Err(e) => Err(e),
                },
                29 => match <PlayerCommand as Serialize>::deserialize(buf, pos) {
                    Ok((x, p)) => Ok((Play::PlayerCommand(x), p)),
                    Err(e) => Err(e),
                },
                31 => match <Pong as Serialize>::deserialize(buf, pos) {
                    Ok((x, p)) => Ok((Play::Pong(x), p)),
                    Err(e) => Err(e),
                },
                _ => Err(DeserializeError::UnknownPacketId(bound, State::Play, id)),
            },
            Bound::Clientbound => match id {
                3 => match <EntityAnimation as Serialize>::deserialize(buf, pos) {
                    Ok((x, p)) => Ok((Play::EntityAnimation(x), p)),
                    Err(e) => Err(e),
                },
                _ => Err(DeserializeError::UnknownPacketId(bound, State::Play, id)),
            },
        }
    }

    /// Reading the body of a valid packet in its own direction, as the whole
    /// of a frame's body, gives it back.
    pub proof fn lemma_round_trip(m: PlayModel)
        requires
            Self::spec_valid(m),
        ensures
            Self::spec_parse(Self::spec_bound(m), Self::spec_id(m), Self::spec_body(m))
                == Ok::<(PlayModel, nat), DeserializeError>((m, Self::spec_body(m).len())),
    {
        assert(Self::spec_body(m) + Seq::<u8>::empty() =~= Self::spec_body(m));
        match m {
            PlayModel::ConfirmTeleportation(x) => <ConfirmTeleportation as Serialize>::lemma_round_trip(x, Seq::empty()),
            PlayModel::QueryBlockEntityTag(x) => <QueryBlockEntityTag as Serialize>::lemma_round_trip(x, Seq::empty()),
            PlayModel::ChangeDifficulty(x) => <ChangeDifficulty as Serialize>::lemma_round_trip(x, Seq::empty()),
            PlayModel::ChatCommand(x) => <ChatCommand as Serialize>::lemma_round_trip(x, Seq::empty()),
            PlayModel::ChatMessage(x) => <ChatMessage as Serialize>::lemma_round_trip(x, Seq::empty()),
            PlayModel::ChatPreview(x) => <ChatPreview as Serialize>::lemma_round_trip(x, Seq::empty()),
            PlayModel::ClientCommand(x) => <ClientCommand as Serialize>::lemma_round_trip(x, Seq::empty()),
            PlayModel::ClientInformation(x) => <ClientInformation as Serialize>::lemma_round_trip(x, Seq::empty()),
            PlayModel::CommandSuggestionsRequest(x) => <CommandSuggestionsRequest as Serialize>::lemma_round_trip(x, Seq::empty()),
            PlayModel::ClickContainerButton(x) => <ClickContainerButton as Serialize>::lemma_round_trip(x, Seq::empty()),
            PlayModel::CloseContainer(x) => <CloseContainer as Serialize>::lemma_round_trip(x, Seq::empty()),
            PlayModel::ServerboundPluginMessage(x) => <ServerboundPluginMessage as Serialize>::lemma_round_trip(x, Seq::empty()),
            PlayModel::EditBook(x) => <EditBook as Serialize>::lemma_round_trip(x, Seq::empty()),
            PlayModel::QueryEntityTag(x) => <QueryEntityTag as Serialize>::lemma_round_trip(x, Seq::empty()),
            PlayModel::JigsawGenerate(x) => <JigsawGenerate as Serialize>::lemma_round_trip(x, Seq::empty()),
            PlayModel::ServerboundKeepAlive(x) => <ServerboundKeepAlive as Serialize>::lemma_round_trip(x, Seq::empty()),
            PlayModel::LockDifficulty(x) => <LockDifficulty as Serialize>::lemma_round_trip(x, Seq::empty()),
            PlayModel::SetPlayerOnGround(x) => <SetPlayerOnGround as Serialize>::lemma_round_trip(x, Seq::empty()),
            PlayModel::PaddleBoat(x) => <PaddleBoat as Serialize>::lemma_round_trip(x, Seq::empty()),
            PlayModel::PickItem(x) => <PickItem as Serialize>::lemma_round_trip(x, Seq::empty()),
            PlayModel::PlaceRecipe(x) => <PlaceRecipe as Serialize>::lemma_round_trip(x, Seq::empty()),
            PlayModel::PlayerAbilities(x) => <PlayerAbilities as Serialize>::lemma_round_trip(x, Seq::empty()),
            PlayModel::PlayerAction(x) => <PlayerAction as Serialize>::lemma_round_trip(x, Seq::empty()),
            PlayModel::PlayerCommand(x) => <PlayerCommand as Serialize>::lemma_round_trip(x, Seq::empty()),
            PlayModel::Pong(x) => <Pong as Serialize>::lemma_round_trip(x, Seq::empty()),
            PlayModel::EntityAnimation(x) => <EntityAnimation as Serialize>::lemma_round_trip(x, Seq::empty()),
        }
    }

    /// A read never takes more bytes than it was given, and fails on ids
    /// that no packet has.
    pub proof fn lemma_parse_len(bound: Bound, id: i32, s: Seq<u8>)
        ensures
            Self::spec_parse(bound, id, s) matches Ok((_, n)) ==> n <= s.len(),
            !Self::spec_known(bound, id) ==> Self::spec_parse(bound, id, s) == Err::<
                (PlayModel, nat),
                DeserializeError,
            >(DeserializeError::UnknownPacketId(bound, State::Play, id)),
    {
        if bound == Bound::Serverbound {
            <ConfirmTeleportation as Serialize>::lemma_parse_len(s);
            <QueryBlockEntityTag as Serialize>::lemma_parse_len(s);
            <ChangeDifficulty as Serialize>::lemma_parse_len(s);
            <ChatCommand as Serialize>::lemma_parse_len(s);
            <ChatMessage as Serialize>::lemma_parse_len(s);
            <ChatPreview as Serialize>::lemma_parse_len(s);
            <ClientCommand as Serialize>::lemma_parse_len(s);
            <ClientInformation as Serialize>::lemma_parse_len(s);
            <CommandSuggestionsRequest as Serialize>::lemma_parse_len(s);
            <ClickContainerButton as Serialize>::lemma_parse_len(s);
            <CloseContainer as Serialize>::lemma_parse_len(s);
            <ServerboundPluginMessage as Serialize>::lemma_parse_len(s);
            <EditBook as Serialize>::lemma_parse_len(s);
            <QueryEntityTag as Serialize>::lemma_parse_len(s);
            <JigsawGenerate as Serialize>::lemma_parse_len(s);
            <ServerboundKeepAlive as Serialize>::lemma_parse_len(s);
            <LockDifficulty as Serialize>::lemma_parse_len(s);
            <SetPlayerOnGround as Serialize>::lemma_parse_len(s);
            <PaddleBoat as Serialize>::lemma_parse_len(s);
            <PickItem as Serialize>::lemma_parse_len(s);
            <PlaceRecipe as Serialize>::lemma_parse_len(s);
            <PlayerAbilities as Serialize>::lemma_parse_len(s);
            <PlayerAction as Serialize>::lemma_parse_len(s);
            <PlayerCommand as Serialize>::lemma_parse_len(s);
            <Pong as Serialize>::lemma_parse_len(s);
        } else {
            <EntityAnimation as Serialize>::lemma_parse_len(s);
        }
    }
}

/// The fields of [`ConfirmTeleportation`], in wire order.
pub type ConfirmTeleportationFields = VarInt;

/// Confirms a teleport by its id.
#[derive(Debug, Clone)]
pub struct ConfirmTeleportation {
    pub id: VarInt,
}

impl Serialize for ConfirmTeleportation {
    type Model = <ConfirmTeleportationFields as Serialize>::Model;

    open spec fn model(&self) -> Self::Model {
        self.id.model()
    }

    open spec fn self_delimited() -> bool {
        <ConfirmTeleportationFields as Serialize>::self_delimited()
    }

    open spec fn valid(m: Self::Model) -> bool {
        <ConfirmTeleportationFields as Serialize>::valid(m)
    }

    open spec fn encode(m: Self::Model) -> Seq<u8> {
        <ConfirmTeleportationFields as Serialize>::encode(m)
    }

    open spec fn parse(s: Seq<u8>) -> Result<(Self::Model, nat), DeserializeError> {
        <ConfirmTeleportationFields as Serialize>::parse(s)
    }

    fn serialize(&self, buf: &mut Vec<u8>) {
        self.id.serialize(buf);
        assert(final(buf)@ =~= old(buf)@ + Self::encode(self.model()));
    }

    fn deserialize(buf: &[u8], pos: usize) -> (r: Result<(ConfirmTeleportation, usize), DeserializeError>) {
        match <ConfirmTeleportationFields as Serialize>::deserialize(buf, pos) {
            Ok((id, p)) => {
                Ok((ConfirmTeleportation { id }, p))
            },
            Err(e) => Err(e),
        }
    }

    proof fn lemma_round_trip(m: Self::Model, rest: Seq<u8>) {
        <ConfirmTeleportationFields as Serialize>::lemma_round_trip(m, rest);
    }

    proof fn lemma_parse_len(s: Seq<u8>) {
        <ConfirmTeleportationFields as Serialize>::lemma_parse_len(s);
    }
}

/// The fields of [`QueryBlockEntityTag`], in wire order.
pub type QueryBlockEntityTagFields = (VarInt, Position);

/// Asks for the tag of the block entity at a position.
#[derive(Debug, Clone)]
pub struct QueryBlockEntityTag {
    pub id: VarInt,
    pub location: Position,
}

impl Serialize for QueryBlockEntityTag {
    type Model = <QueryBlockEntityTagFields as Serialize>::Model;

    open spec fn model(&self) -> Self::Model {
        (self.id.model(), self.location.model())
    }

    open spec fn self_delimited() -> bool {
        <QueryBlockEntityTagFields as Serialize>::self_delimited()
    }

    open spec fn valid(m: Self::Model) -> bool {
        <QueryBlockEntityTagFields as Serialize>::valid(m)
    }

    open spec fn encode(m: Self::Model) -> Seq<u8> {
        <QueryBlockEntityTagFields as Serialize>::encode(m)
    }

    open spec fn parse(s: Seq<u8>) -> Result<(Self::Model, nat), DeserializeError> {
        <QueryBlockEntityTagFields as Serialize>::parse(s)
    }

    fn serialize(&self, buf: &mut Vec<u8>) {
        self.id.serialize(buf);
        self.location.serialize(buf);
        assert(final(buf)@ =~= old(buf)@ + Self::encode(self.model()));
    }

    fn deserialize(buf: &[u8], pos: usize) -> (r: Result<(QueryBlockEntityTag, usize), DeserializeError>) {
        match <QueryBlockEntityTagFields as Serialize>::deserialize(buf, pos) {
            Ok(((id, location), p)) => {
                Ok((QueryBlockEntityTag { id, location }, p))
            },
            Err(e) => Err(e),
        }
    }

    proof fn lemma_round_trip(m: Self::Model, rest: Seq<u8>) {
        <QueryBlockEntityTagFields as Serialize>::lemma_round_trip(m, rest);
    }

    proof fn lemma_parse_len(s: Seq<u8>) {
        <QueryBlockEntityTagFields as Serialize>::lemma_parse_len(s);
    }
}

/// The fields of [`ChangeDifficulty`], in wire order.
pub type ChangeDifficultyFields = Difficulty;

/// Asks for another difficulty.
#[derive(Debug, Clone)]
pub struct ChangeDifficulty {
    pub new_difficulty: Difficulty,
}

impl Serialize for ChangeDifficulty {
    type Model = <ChangeDifficultyFields as Serialize>::Model;

    open spec fn model(&self) -> Self::Model {
        self.new_difficulty.model()
    }

    open spec fn self_delimited() -> bool {
        <ChangeDifficultyFields as Serialize>::self_delimited()
    }

    open spec fn valid(m: Self::Model) -> bool {
        <ChangeDifficultyFields as Serialize>::valid(m)
    }

    open spec fn encode(m: Self::Model) -> Seq<u8> {
        <ChangeDifficultyFields as Serialize>::encode(m)
    }

    open spec fn parse(s: Seq<u8>) -> Result<(Self::Model, nat), DeserializeError> {
        <ChangeDifficultyFields as Serialize>::parse(s)
    }

    fn serialize(&self, buf: &mut Vec<u8>) {
        self.new_difficulty.serialize(buf);
        assert(final(buf)@ =~= old(buf)@ + Self::encode(self.model()));
    }

    fn deserialize(buf: &[u8], pos: usize) -> (r: Result<(ChangeDifficulty, usize), DeserializeError>) {
        match <ChangeDifficultyFields as Serialize>::deserialize(buf, pos) {
            Ok((new_difficulty, p)) => {
                Ok((ChangeDifficulty { new_difficulty }, p))
            },
            Err(e) => Err(e),
        }
    }

    proof fn lemma_round_trip(m: Self::Model, rest: Seq<u8>) {
        <ChangeDifficultyFields as Serialize>::lemma_round_trip(m, rest);
    }

    proof fn lemma_parse_len(s: Seq<u8>) {
        <ChangeDifficultyFields as Serialize>::lemma_parse_len(s);
    }
}

/// The fields of [`ChatCommand`], in wire order.
pub type ChatCommandFields = (String, (i64, (i64, (Vec<ArgumentSignature>, bool))));

/// A command typed in chat, with its signatures.
#[derive(Debug, Clone)]
pub struct ChatCommand {
    pub command: String,
    pub timestamp: i64,
    pub salt: i64,
    pub arg_signatures: Vec<ArgumentSignature>,
    pub signed_preview: bool,
}

impl Serialize for ChatCommand {
    type Model = <ChatCommandFields as Serialize>::Model;

    open spec fn model(&self) -> Self::Model {
        (
            self.command.model(),
            (
                self.timestamp.model(),
                (self.salt.model(), (self.arg_signatures.model(), self.signed_preview.model())),
            ),
        )
    }

    open spec fn self_delimited() -> bool {
        <ChatCommandFields as Serialize>::self_delimited()
    }

    open spec fn valid(m: Self::Model) -> bool {
        <ChatCommandFields as Serialize>::valid(m)
    }

    open spec fn encode(m: Self::Model) -> Seq<u8> {
        <ChatCommandFields as Serialize>::encode(m)
    }

    open spec fn parse(s: Seq<u8>) -> Result<(Self::Model, nat), DeserializeError> {
        <ChatCommandFields as Serialize>::parse(s)
    }

    #[verifier::spinoff_prover]
    #[verifier::rlimit(40)]
    fn serialize(&self, buf: &mut Vec<u8>) {
        self.command.serialize(buf);
        self.timestamp.serialize(buf);
        self.salt.serialize(buf);
        self.arg_signatures.serialize(buf);
        self.signed_preview.serialize(buf);
        assert(final(buf)@ =~= old(buf)@ + Self::encode(self.model()));
    }

    fn deserialize(buf: &[u8], pos: usize) -> (r: Result<(ChatCommand, usize), DeserializeError>) {
        match <ChatCommandFields as Serialize>::deserialize(buf, pos) {
            Ok(((command, (timestamp, (salt, (arg_signatures, signed_preview)))), p)) => {
                Ok((ChatCommand { command, timestamp, salt, arg_signatures, signed_preview }, p))
            },
            Err(e) => Err(e),
        }
    }

    proof fn lemma_round_trip(m: Self::Model, rest: Seq<u8>) {
        <ChatCommandFields as Serialize>::lemma_round_trip(m, rest);
    }

    proof fn lemma_parse_len(s: Seq<u8>) {
        <ChatCommandFields as Serialize>::lemma_parse_len(s);
    }
}

/// The fields of [`ChatMessage`], in wire order.
pub type ChatMessageFields = (String, (i64, (i64, (Vec<u8>, bool))));

/// A chat message with its signature.
#[derive(Debug, Clone)]
pub struct ChatMessage {
    pub message: String,
    pub timestamp: i64,
    pub salt: i64,
    pub signature: Vec<u8>,
    pub signed_preview: bool,
}

impl Serialize for ChatMessage {
    type Model = <ChatMessageFields as Serialize>::Model;

    open spec fn model(&self) -> Self::Model {
        (
            self.message.model(),
            (
                self.timestamp.model(),
                (self.salt.model(), (self.signature.model(), self.signed_preview.model())),
            ),
        )
    }

    open spec fn self_delimited() -> bool {
        <ChatMessageFields as Serialize>::self_delimited()
    }

    open spec fn valid(m: Self::Model) -> bool {
        <ChatMessageFields as Serialize>::valid(m)
    }

    open spec fn encode(m: Self::Model) -> Seq<u8> {
        <ChatMessageFields as Serialize>::encode(m)
    }

    open spec fn parse(s: Seq<u8>) -> Result<(Self::Model, nat), DeserializeError> {
        <ChatMessageFields as Serialize>::parse(s)
    }

    #[verifier::spinoff_prover]
    #[verifier::rlimit(40)]
    fn serialize(&self, buf: &mut Vec<u8>) {
        self.message.serialize(buf);
        self.timestamp.serialize(buf);
        self.salt.serialize(buf);
        self.signature.serialize(buf);
        self.signed_preview.serialize(buf);
        assert(final(buf)@ =~= old(buf)@ + Self::encode(self.model()));
    }

    fn deserialize(buf: &[u8], pos: usize) -> (r: Result<(ChatMessage, usize), DeserializeError>) {
        match <ChatMessageFields as Serialize>::deserialize(buf, pos) {
            Ok(((message, (timestamp, (salt, (signature, signed_preview)))), p)) => {
                Ok((ChatMessage { message, timestamp, salt, signature, signed_preview }, p))
            },
            Err(e) => Err(e),
        }
    }

    proof fn lemma_round_trip(m: Self::Model, rest: Seq<u8>) {
        <ChatMessageFields as Serialize>::lemma_round_trip(m, rest);
    }

    proof fn lemma_parse_len(s: Seq<u8>) {
        <ChatMessageFields as Serialize>::lemma_parse_len(s);
    }
}

/// The fields of [`ChatPreview`], in wire order.
pub type ChatPreviewFields = (i32, String);

/// Asks for a preview of a chat message.
#[derive(Debug, Clone)]
pub struct ChatPreview {
    pub query: i32,
    pub message: String,
}

impl Serialize for ChatPreview {
    type Model = <ChatPreviewFields as Serialize>::Model;

    open spec fn model(&self) -> Self::Model {
        (self.query.model(), self.message.model())
    }

    open spec fn self_delimited() -> bool {
        <ChatPreviewFields as Serialize>::self_delimited()
    }

    open spec fn valid(m: Self::Model) -> bool {
        <ChatPreviewFields as Serialize>::valid(m)
    }

    open spec fn encode(m: Self::Model) -> Seq<u8> {
        <ChatPreviewFields as Serialize>::encode(m)
    }

    open spec fn parse(s: Seq<u8>) -> Result<(Self::Model, nat), DeserializeError> {
        <ChatPreviewFields as Serialize>::parse(s)
    }

    fn serialize(&self, buf: &mut Vec<u8>) {
        self.query.serialize(buf);
        self.message.serialize(buf);
        assert(final(buf)@ =~= old(buf)@ + Self::encode(self.model()));
    }

    fn deserialize(buf: &[u8], pos: usize) -> (r: Result<(ChatPreview, usize), DeserializeError>) {
        match <ChatPreviewFields as Serialize>::deserialize(buf, pos) {
            Ok(((query, message), p)) => {
                Ok((ChatPreview { query, message }, p))
            },
            Err(e) => Err(e),
        }
    }

    proof fn lemma_round_trip(m: Self::Model, rest: Seq<u8>) {
        <ChatPreviewFields as Serialize>::lemma_round_trip(m, rest);
    }

    proof fn lemma_parse_len(s: Seq<u8>) {
        <ChatPreviewFields as Serialize>::lemma_parse_len(s);
    }
}

/// The fields of [`ClientCommand`], in wire order.
pub type ClientCommandFields = ActionId;

/// Asks to respawn or for statistics.
#[derive(Debug, Clone)]
pub struct ClientCommand {
    pub id: ActionId,
}

impl Serialize for ClientCommand {
    type Model = <ClientCommandFields as Serialize>::Model;

    open spec fn model(&self) -> Self::Model {
        self.id.model()
    }

    open spec fn self_delimited() -> bool {
        <ClientCommandFields as Serialize>::self_delimited()
    }

    open spec fn valid(m: Self::Model) -> bool {
        <ClientCommandFields as Serialize>::valid(m)
    }

    open spec fn encode(m: Self::Model) -> Seq<u8> {
        <ClientCommandFields as Serialize>::encode(m)
    }

    open spec fn parse(s: Seq<u8>) -> Result<(Self::Model, nat), DeserializeError> {
        <ClientCommandFields as Serialize>::parse(s)
    }

    fn serialize(&self, buf: &mut Vec<u8>) {
        self.id.serialize(buf);
        assert(final(buf)@ =~= old(buf)@ + Self::encode(self.model()));
    }

    fn deserialize(buf: &[u8], pos: usize) -> (r: Result<(ClientCommand, usize), DeserializeError>) {
        match <ClientCommandFields as Serialize>::deserialize(buf, pos) {
            Ok((id, p)) => {
                Ok((ClientCommand { id }, p))
            },
            Err(e) => Err(e),
        }
    }

    proof fn lemma_round_trip(m: Self::Model, rest: Seq<u8>) {
        <ClientCommandFields as Serialize>::lemma_round_trip(m, rest);
    }

    proof fn lemma_parse_len(s: Seq<u8>) {
        <ClientCommandFields as Serialize>::lemma_parse_len(s);
    }
}

/// The fields of [`ClientInformation`], in wire order.
pub type ClientInformationFields = (String, (u8, (ChatMode, (bool, (u8, (MainHand, (bool, bool)))))));

/// The client's settings.
#[derive(Debug, Clone)]
pub struct ClientInformation {
    pub locale: String,
    pub view_distance: u8,
    pub chat_mode: ChatMode,
    pub chat_colors: bool,
    pub displayed_skin_parts: u8,
    pub main_hand: MainHand,
    pub enable_text_filtering: bool,
    pub allow_server_listings: bool,
}

impl Serialize for ClientInformation {
    type Model = <ClientInformationFields as Serialize>::Model;

    open spec fn model(&self) -> Self::Model {
        (
            self.locale.model(),
            (
                self.view_distance.model(),
                (
                    self.chat_mode.model(),
                    (
                        self.chat_colors.model(),
                        (
                            self.displayed_skin_parts.model(),
                            (
                                self.main_hand.model(),
                                (self.enable_text_filtering.model(), self.allow_server_listings.model()),
                            ),
                        ),
                    ),
                ),
            ),
        )
    }

    open spec fn self_delimited() -> bool {
        <ClientInformationFields as Serialize>::self_delimited()
    }

    open spec fn valid(m: Self::Model) -> bool {
        <ClientInformationFields as Serialize>::valid(m)
    }

    open spec fn encode(m: Self::Model) -> Seq<u8> {
        <ClientInformationFields as Serialize>::encode(m)
    }

    open spec fn parse(s: Seq<u8>) -> Result<(Self::Model, nat), DeserializeError> {
        <ClientInformationFields as Serialize>::parse(s)
    }

    #[verifier::spinoff_prover]
    #[verifier::rlimit(40)]
    fn serialize(&self, buf: &mut Vec<u8>) {
        self.locale.serialize(buf);
        self.view_distance.serialize(buf);
        self.chat_mode.serialize(buf);
        self.chat_colors.serialize(buf);
        self.displayed_skin_parts.serialize(buf);
        self.main_hand.serialize(buf);
        self.enable_text_filtering.serialize(buf);
        self.allow_server_listings.serialize(buf);
        assert(final(buf)@ =~= old(buf)@ + Self::encode(self.model()));
    }

    fn deserialize(buf: &[u8], pos: usize) -> (r: Result<(ClientInformation, usize), DeserializeError>) {
        match <ClientInformationFields as Serialize>::deserialize(buf, pos) {
            Ok(((locale, (view_distance, (chat_mode, (chat_colors, (displayed_skin_parts, (main_hand, (enable_text_filtering, allow_server_listings))))))), p)) => {
                Ok((ClientInformation { locale, view_distance, chat_mode, chat_colors, displayed_skin_parts, main_hand, enable_text_filtering, allow_server_listings }, p))
            },
            Err(e) => Err(e),
        }
    }

    proof fn lemma_round_trip(m: Self::Model, rest: Seq<u8>) {
        <ClientInformationFields as Serialize>::lemma_round_trip(m, rest);
    }

    proof fn lemma_parse_len(s: Seq<u8>) {
        <ClientInformationFields as Serialize>::lemma_parse_len(s);
    }
}

/// The fields of [`CommandSuggestionsRequest`], in wire order.
pub type CommandSuggestionsRequestFields = (VarInt, String);

/// Asks for completions of a command.
#[derive(Debug, Clone)]
pub struct CommandSuggestionsRequest {
    pub id: VarInt,
    pub text: String,
}

impl Serialize for CommandSuggestionsRequest {
    type Model = <CommandSuggestionsRequestFields as Serialize>::Model;

    open spec fn model(&self) -> Self::Model {
        (self.id.model(), self.text.model())
    }

    open spec fn self_delimited() -> bool {
        <CommandSuggestionsRequestFields as Serialize>::self_delimited()
    }

    open spec fn valid(m: Self::Model) -> bool {
        <CommandSuggestionsRequestFields as Serialize>::valid(m)
    }

    open spec fn encode(m: Self::Model) -> Seq<u8> {
        <CommandSuggestionsRequestFields as Serialize>::encode(m)
    }

    open spec fn parse(s: Seq<u8>) -> Result<(Self::Model, nat), DeserializeError> {
        <CommandSuggestionsRequestFields as Serialize>::parse(s)
    }

    fn serialize(&self, buf: &mut Vec<u8>) {
        self.id.serialize(buf);
        self.text.serialize(buf);
        assert(final(buf)@ =~= old(buf)@ + Self::encode(self.model()));
    }

    fn deserialize(buf: &[u8], pos: usize) -> (r: Result<(CommandSuggestionsRequest, usize), DeserializeError>) {
        match <CommandSuggestionsRequestFields as Serialize>::deserialize(buf, pos) {
            Ok(((id, text), p)) => {
                Ok((CommandSuggestionsRequest { id, text }, p))
            },
            Err(e) => Err(e),
        }
    }

    proof fn lemma_round_trip(m: Self::Model, rest: Seq<u8>) {
        <CommandSuggestionsRequestFields as Serialize>::lemma_round_trip(m, rest);
    }

    proof fn lemma_parse_len(s: Seq<u8>) {
        <CommandSuggestionsRequestFields as Serialize>::lemma_parse_len(s);
    }
}

/// The fields of [`ClickContainerButton`], in wire order.
pub type ClickContainerButtonFields = (u8, u8);

/// A click on a button of a container window.
#[derive(Debug, Clone)]
pub struct ClickContainerButton {
    pub window_id: u8,
    pub button_id: u8,
}

impl Serialize for ClickContainerButton {
    type Model = <ClickContainerButtonFields as Serialize>::Model;

    open spec fn model(&self) -> Self::Model {
        (self.window_id.model(), self.button_id.model())
    }

    open spec fn self_delimited() -> bool {
        <ClickContainerButtonFields as Serialize>::self_delimited()
    }

    open spec fn valid(m: Self::Model) -> bool {
        <ClickContainerButtonFields as Serialize>::valid(m)
    }

    open spec fn encode(m: Self::Model) -> Seq<u8> {
        <ClickContainerButtonFields as Serialize>::encode(m)
    }

    open spec fn parse(s: Seq<u8>) -> Result<(Self::Model, nat), DeserializeError> {
        <ClickContainerButtonFields as Serialize>::parse(s)
    }

    fn serialize(&self, buf: &mut Vec<u8>) {
        self.window_id.serialize(buf);
        self.button_id.serialize(buf);
        assert(final(buf)@ =~= old(buf)@ + Self::encode(self.model()));
    }

    fn deserialize(buf: &[u8], pos: usize) -> (r: Result<(ClickContainerButton, usize), DeserializeError>) {
        match <ClickContainerButtonFields as Serialize>::deserialize(buf, pos) {
            Ok(((window_id, button_id), p)) => {
                Ok((ClickContainerButton { window_id, button_id }, p))
            },
            Err(e) => Err(e),
        }
    }

    proof fn lemma_round_trip(m: Self::Model, rest: Seq<u8>) {
        <ClickContainerButtonFields as Serialize>::lemma_round_trip(m, rest);
    }

    proof fn lemma_parse_len(s: Seq<u8>) {
        <ClickContainerButtonFields as Serialize>::lemma_parse_len(s);
    }
}

/// The fields of [`CloseContainer`], in wire order.
pub type CloseContainerFields = u8;

/// Closes a container window.
#[derive(Debug, Clone)]
pub struct CloseContainer {
    pub window_id: u8,
}

impl Serialize for CloseContainer {
    type Model = <CloseContainerFields as Serialize>::Model;

    open spec fn model(&self) -> Self::Model {
        self.window_id.model()
    }

    open spec fn self_delimited() -> bool {
        <CloseContainerFields as Serialize>::self_delimited()
    }

    open spec fn valid(m: Self::Model) -> bool {
        <CloseContainerFields as Serialize>::valid(m)
    }

    open spec fn encode(m: Self::Model) -> Seq<u8> {
        <CloseContainerFields as Serialize>::encode(m)
    }

    open spec fn parse(s: Seq<u8>) -> Result<(Self::Model, nat), DeserializeError> {
        <CloseContainerFields as Serialize>::parse(s)
    }

    fn serialize(&self, buf: &mut Vec<u8>) {
        self.window_id.serialize(buf);
        assert(final(buf)@ =~= old(buf)@ + Self::encode(self.model()));
    }

    fn deserialize(buf: &[u8], pos: usize) -> (r: Result<(CloseContainer, usize), DeserializeError>) {
        match <CloseContainerFields as Serialize>::deserialize(buf, pos) {
            Ok((window_id, p)) => {
                Ok((CloseContainer { window_id }, p))
            },
            Err(e) => Err(e),
        }
    }

    proof fn lemma_round_trip(m: Self::Model, rest: Seq<u8>) {
        <CloseContainerFields as Serialize>::lemma_round_trip(m, rest);
    }

    proof fn lemma_parse_len(s: Seq<u8>) {
        <CloseContainerFields as Serialize>::lemma_parse_len(s);
    }
}

/// A message on a plugin channel; its data runs to the end of the packet.
#[derive(Debug, Clone)]
pub struct ServerboundPluginMessage {
    pub channel: String,
    pub data: InferredLenByteArray,
}

/// Plugin messages: the channel, then the data, which the frame's length ends.
impl Serialize for ServerboundPluginMessage {
    type Model = (Seq<char>, Seq<u8>);

    open spec fn model(&self) -> (Seq<char>, Seq<u8>) {
        (self.channel@, self.data.0@)
    }

    open spec fn self_delimited() -> bool {
        false
    }

    open spec fn valid(m: (Seq<char>, Seq<u8>)) -> bool {
        <String as Serialize>::valid(m.0)
    }

    open spec fn encode(m: (Seq<char>, Seq<u8>)) -> Seq<u8> {
        <String as Serialize>::encode(m.0) + m.1
    }

    open spec fn parse(s: Seq<u8>) -> Result<((Seq<char>, Seq<u8>), nat), DeserializeError> {
        match <String as Serialize>::parse(s) {
            Ok((channel, n)) => Ok(((channel, s.subrange(n as int, s.len() as int)), s.len())),
            Err(e) => Err(e),
        }
    }

    fn serialize(&self, buf: &mut Vec<u8>) {
        self.channel.serialize(buf);
        self.data.serialize(buf);
        assert(final(buf)@ =~= old(buf)@ + Self::encode(self.model()));
    }

    fn deserialize(buf: &[u8], pos: usize) -> (r: Result<(ServerboundPluginMessage, usize), DeserializeError>) {
        let _len = buf.len();
        match <String as Serialize>::deserialize(buf, pos) {
            Ok((channel, p)) => {
                let (data, end) = InferredLenByteArray::deserialize(buf, p);
                assert(data.0@ =~= rest_of(buf@, pos).subrange(
                    (p - pos) as int,
                    rest_of(buf@, pos).len() as int,
                ));
                Ok((ServerboundPluginMessage { channel, data }, end))
            },
            Err(e) => Err(e),
        }
    }

    proof fn lemma_round_trip(m: (Seq<char>, Seq<u8>), rest: Seq<u8>) {
        <String as Serialize>::lemma_round_trip(m.0, m.1);
        let s = Self::encode(m) + rest;
        assert(s =~= Self::encode(m));
        let n = <String as Serialize>::encode(m.0).len();
        assert(s.subrange(n as int, s.len() as int) =~= m.1);
    }

    proof fn lemma_parse_len(s: Seq<u8>) {
    }
}

/// The fields of [`EditBook`], in wire order.
pub type EditBookFields = (VarInt, (Vec<String>, Option<String>));

/// The pages of a book being edited, and its title when it is signed.
#[derive(Debug, Clone)]
pub struct EditBook {
    pub slot: VarInt,
    pub entries: Vec<String>,
    pub title: Option<String>,
}

impl Serialize for EditBook {
    type Model = <EditBookFields as Serialize>::Model;

    open spec fn model(&self) -> Self::Model {
        (self.slot.model(), (self.entries.model(), self.title.model()))
    }

    open spec fn self_delimited() -> bool {
        <EditBookFields as Serialize>::self_delimited()
    }

    open spec fn valid(m: Self::Model) -> bool {
        <EditBookFields as Serialize>::valid(m)
    }

    open spec fn encode(m: Self::Model) -> Seq<u8> {
        <EditBookFields as Serialize>::encode(m)
    }

    open spec fn parse(s: Seq<u8>) -> Result<(Self::Model, nat), DeserializeError> {
        <EditBookFields as Serialize>::parse(s)
    }

    fn serialize(&self, buf: &mut Vec<u8>) {
        self.slot.serialize(buf);
        self.entries.serialize(buf);
        self.title.serialize(buf);
        assert(final(buf)@ =~= old(buf)@ + Self::encode(self.model()));
    }

    fn deserialize(buf: &[u8], pos: usize) -> (r: Result<(EditBook, usize), DeserializeError>) {
        match <EditBookFields as Serialize>::deserialize(buf, pos) {
            Ok(((slot, (entries, title)), p)) => {
                Ok((EditBook { slot, entries, title }, p))
            },
            Err(e) => Err(e),
        }
    }

    proof fn lemma_round_trip(m: Self::Model, rest: Seq<u8>) {
        <EditBookFields as Serialize>::lemma_round_trip(m, rest);
    }

    proof fn lemma_parse_len(s: Seq<u8>) {
        <EditBookFields as Serialize>::lemma_parse_len(s);
    }
}

/// The fields of [`QueryEntityTag`], in wire order.
pub type QueryEntityTagFields = (VarInt, VarInt);

/// Asks for the tag of an entity.
#[derive(Debug, Clone)]
pub struct QueryEntityTag {
    pub transaction_id: VarInt,
    pub entity_id: VarInt,
}

impl Serialize for QueryEntityTag {
    type Model = <QueryEntityTagFields as Serialize>::Model;

    open spec fn model(&self) -> Self::Model {
        (self.transaction_id.model(), self.entity_id.model())
    }

    open spec fn self_delimited() -> bool {
        <QueryEntityTagFields as Serialize>::self_delimited()
    }

    open spec fn valid(m: Self::Model) -> bool {
        <QueryEntityTagFields as Serialize>::valid(m)
    }

    open spec fn encode(m: Self::Model) -> Seq<u8> {
        <QueryEntityTagFields as Serialize>::encode(m)
    }

    open spec fn parse(s: Seq<u8>) -> Result<(Self::Model, nat), DeserializeError> {
        <QueryEntityTagFields as Serialize>::parse(s)
    }

    fn serialize(&self, buf: &mut Vec<u8>) {
        self.transaction_id.serialize(buf);
        self.entity_id.serialize(buf);
        assert(final(buf)@ =~= old(buf)@ + Self::encode(self.model()));
    }

    fn deserialize(buf: &[u8], pos: usize) -> (r: Result<(QueryEntityTag, usize), DeserializeError>) {
        match <QueryEntityTagFields as Serialize>::deserialize(buf, pos) {
            Ok(((transaction_id, entity_id), p)) => {
                Ok((QueryEntityTag { transaction_id, entity_id }, p))
            },
            Err(e) => Err(e),
        }
    }

    proof fn lemma_round_trip(m: Self::Model, rest: Seq<u8>) {
        <QueryEntityTagFields as Serialize>::lemma_round_trip(m, rest);
    }

    proof fn lemma_parse_len(s: Seq<u8>) {
        <QueryEntityTagFields as Serialize>::lemma_parse_len(s);
    }
}

/// The fields of [`JigsawGenerate`], in wire order.
pub type JigsawGenerateFields = (Position, (VarInt, bool));

/// Starts jigsaw generation at a block.
#[derive(Debug, Clone)]
pub struct JigsawGenerate {
    pub position: Position,
    pub levels: VarInt,
    pub keep_jigsaws: bool,
}

impl Serialize for JigsawGenerate {
    type Model = <JigsawGenerateFields as Serialize>::Model;

    open spec fn model(&self) -> Self::Model {
        (self.position.model(), (self.levels.model(), self.keep_jigsaws.model()))
    }

    open spec fn self_delimited() -> bool {
        <JigsawGenerateFields as Serialize>::self_delimited()
    }

    open spec fn valid(m: Self::Model) -> bool {
        <JigsawGenerateFields as Serialize>::valid(m)
    }

    open spec fn encode(m: Self::Model) -> Seq<u8> {
        <JigsawGenerateFields as Serialize>::encode(m)
    }

    open spec fn parse(s: Seq<u8>) -> Result<(Self::Model, nat), DeserializeError> {
        <JigsawGenerateFields as Serialize>::parse(s)
    }

    fn serialize(&self, buf: &mut Vec<u8>) {
        self.position.serialize(buf);
        self.levels.serialize(buf);
        self.keep_jigsaws.serialize(buf);
        assert(final(buf)@ =~= old(buf)@ + Self::encode(self.model()));
    }

    fn deserialize(buf: &[u8], pos: usize) -> (r: Result<(JigsawGenerate, usize), DeserializeError>) {
        match <JigsawGenerateFields as Serialize>::deserialize(buf, pos) {
            Ok(((position, (levels, keep_jigsaws)), p)) => {
                Ok((JigsawGenerate { position, levels, keep_jigsaws }, p))
            },
            Err(e) => Err(e),
        }
    }

    proof fn lemma_round_trip(m: Self::Model, rest: Seq<u8>) {
        <JigsawGenerateFields as Serialize>::lemma_round_trip(m, rest);
    }

    proof fn lemma_parse_len(s: Seq<u8>) {
        <JigsawGenerateFields as Serialize>::lemma_parse_len(s);
    }
}

/// The fields of [`ServerboundKeepAlive`], in wire order.
pub type ServerboundKeepAliveFields = i64;

/// Answers a keep-alive with its id.
#[derive(Debug, Clone)]
pub struct ServerboundKeepAlive {
    pub id: i64,
}

impl Serialize for ServerboundKeepAlive {
    type Model = <ServerboundKeepAliveFields as Serialize>::Model;

    open spec fn model(&self) -> Self::Model {
        self.id.model()
    }

    open spec fn self_delimited() -> bool {
        <ServerboundKeepAliveFields as Serialize>::self_delimited()
    }

    open spec fn valid(m: Self::Model) -> bool {
        <ServerboundKeepAliveFields as Serialize>::valid(m)
    }

    open spec fn encode(m: Self::Model) -> Seq<u8> {
        <ServerboundKeepAliveFields as Serialize>::encode(m)
    }

    open spec fn parse(s: Seq<u8>) -> Result<(Self::Model, nat), DeserializeError> {
        <ServerboundKeepAliveFields as Serialize>::parse(s)
    }

    fn serialize(&self, buf: &mut Vec<u8>) {
        self.id.serialize(buf);
        assert(final(buf)@ =~= old(buf)@ + Self::encode(self.model()));
    }

    fn deserialize(buf: &[u8], pos: usize) -> (r: Result<(ServerboundKeepAlive, usize), DeserializeError>) {
        match <ServerboundKeepAliveFields as Serialize>::deserialize(buf, pos) {
            Ok((id, p)) => {
                Ok((ServerboundKeepAlive { id }, p))
            },
            Err(e) => Err(e),
        }
    }

    proof fn lemma_round_trip(m: Self::Model, rest: Seq<u8>) {
        <ServerboundKeepAliveFields as Serialize>::lemma_round_trip(m, rest);
    }

    proof fn lemma_parse_len(s: Seq<u8>) {
        <ServerboundKeepAliveFields as Serialize>::lemma_parse_len(s);
    }
}

/// The fields of [`LockDifficulty`], in wire order.
pub type LockDifficultyFields = bool;

/// Locks or unlocks the difficulty.
#[derive(Debug, Clone)]
pub struct LockDifficulty {
    pub locked: bool,
}

impl Serialize for LockDifficulty {
    type Model = <LockDifficultyFields as Serialize>::Model;

    open spec fn model(&self) -> Self::Model {
        self.locked.model()
    }

    open spec fn self_delimited() -> bool {
        <LockDifficultyFields as Serialize>::self_delimited()
    }

    open spec fn valid(m: Self::Model) -> bool {
        <LockDifficultyFields as Serialize>::valid(m)
    }

    open spec fn encode(m: Self::Model) -> Seq<u8> {
        <LockDifficultyFields as Serialize>::encode(m)
    }

    open spec fn parse(s: Seq<u8>) -> Result<(Self::Model, nat), DeserializeError> {
        <LockDifficultyFields as Serialize>::parse(s)
    }

    fn serialize(&self, buf: &mut Vec<u8>) {
        self.locked.serialize(buf);
        assert(final(buf)@ =~= old(buf)@ + Self::encode(self.model()));
    }

    fn deserialize(buf: &[u8], pos: usize) -> (r: Result<(LockDifficulty, usize), DeserializeError>) {
        match <LockDifficultyFields as Serialize>::deserialize(buf, pos) {
            Ok((locked, p)) => {
                Ok((LockDifficulty { locked }, p))
            },
            Err(e) => Err(e),
        }
    }

    proof fn lemma_round_trip(m: Self::Model, rest: Seq<u8>) {
        <LockDifficultyFields as Serialize>::lemma_round_trip(m, rest);
    }

    proof fn lemma_parse_len(s: Seq<u8>) {
        <LockDifficultyFields as Serialize>::lemma_parse_len(s);
    }
}

/// The fields of [`SetPlayerOnGround`], in wire order.
pub type SetPlayerOnGroundFields = bool;

/// Whether the player stands on the ground.
#[derive(Debug, Clone)]
pub struct SetPlayerOnGround {
    pub on_ground: bool,
}

impl Serialize for SetPlayerOnGround {
    type Model = <SetPlayerOnGroundFields as Serialize>::Model;

    open spec fn model(&self) -> Self::Model {
        self.on_ground.model()
    }

    open spec fn self_delimited() -> bool {
        <SetPlayerOnGroundFields as Serialize>::self_delimited()
    }

    open spec fn valid(m: Self::Model) -> bool {
        <SetPlayerOnGroundFields as Serialize>::valid(m)
    }

    open spec fn encode(m: Self::Model) -> Seq<u8> {
        <SetPlayerOnGroundFields as Serialize>::encode(m)
    }

    open spec fn parse(s: Seq<u8>) -> Result<(Self::Model, nat), DeserializeError> {
        <SetPlayerOnGroundFields as Serialize>::parse(s)
    }

    fn serialize(&self, buf: &mut Vec<u8>) {
        self.on_ground.serialize(buf);
        assert(final(buf)@ =~= old(buf)@ + Self::encode(self.model()));
    }

    fn deserialize(buf: &[u8], pos: usize) -> (r: Result<(SetPlayerOnGround, usize), DeserializeError>) {
        match <SetPlayerOnGroundFields as Serialize>::deserialize(buf, pos) {
            Ok((on_ground, p)) => {
                Ok((SetPlayerOnGround { on_ground }, p))
            },
            Err(e) => Err(e),
        }
    }

    proof fn lemma_round_trip(m: Self::Model, rest: Seq<u8>) {
        <SetPlayerOnGroundFields as Serialize>::lemma_round_trip(m, rest);
    }

    proof fn lemma_parse_len(s: Seq<u8>) {
        <SetPlayerOnGroundFields as Serialize>::lemma_parse_len(s);
    }
}

/// The fields of [`PaddleBoat`], in wire order.
pub type PaddleBoatFields = (bool, bool);

/// Which paddles of a boat turn.
#[derive(Debug, Clone)]
pub struct PaddleBoat {
    pub left_paddle: bool,
    pub right_paddle: bool,
}

impl Serialize for PaddleBoat {
    type Model = <PaddleBoatFields as Serialize>::Model;

    open spec fn model(&self) -> Self::Model {
        (self.left_paddle.model(), self.right_paddle.model())
    }

    open spec fn self_delimited() -> bool {
        <PaddleBoatFields as Serialize>::self_delimited()
    }

    open spec fn valid(m: Self::Model) -> bool {
        <PaddleBoatFields as Serialize>::valid(m)
    }

    open spec fn encode(m: Self::Model) -> Seq<u8> {
        <PaddleBoatFields as Serialize>::encode(m)
    }

    open spec fn parse(s: Seq<u8>) -> Result<(Self::Model, nat), DeserializeError> {
        <PaddleBoatFields as Serialize>::parse(s)
    }

    fn serialize(&self, buf: &mut Vec<u8>) {
        self.left_paddle.serialize(buf);
        self.right_paddle.serialize(buf);
        assert(final(buf)@ =~= old(buf)@ + Self::encode(self.model()));
    }

    fn deserialize(buf: &[u8], pos: usize) -> (r: Result<(PaddleBoat, usize), DeserializeError>) {
        match <PaddleBoatFields as Serialize>::deserialize(buf, pos) {
            Ok(((left_paddle, right_paddle), p)) => {
                Ok((PaddleBoat { left_paddle, right_paddle }, p))
            },
            Err(e) => Err(e),
        }
    }

    proof fn lemma_round_trip(m: Self::Model, rest: Seq<u8>) {
        <PaddleBoatFields as Serialize>::lemma_round_trip(m, rest);
    }

    proof fn lemma_parse_len(s: Seq<u8>) {
        <PaddleBoatFields as Serialize>::lemma_parse_len(s);
    }
}

/// The fields of [`PickItem`], in wire order.
pub type PickItemFields = VarInt;

/// Picks the item in an inventory slot.
#[derive(Debug, Clone)]
pub struct PickItem {
    pub slot: VarInt,
}

impl Serialize for PickItem {
    type Model = <PickItemFields as Serialize>::Model;

    open spec fn model(&self) -> Self::Model {
        self.slot.model()
    }

    open spec fn self_delimited() -> bool {
        <PickItemFields as Serialize>::self_delimited()
    }

    open spec fn valid(m: Self::Model) -> bool {
        <PickItemFields as Serialize>::valid(m)
    }

    open spec fn encode(m: Self::Model) -> Seq<u8> {
        <PickItemFields as Serialize>::encode(m)
    }

    open spec fn parse(s: Seq<u8>) -> Result<(Self::Model, nat), DeserializeError> {
        <PickItemFields as Serialize>::parse(s)
    }

    fn serialize(&self, buf: &mut Vec<u8>) {
        self.slot.serialize(buf);
        assert(final(buf)@ =~= old(buf)@ + Self::encode(self.model()));
    }

    fn deserialize(buf: &[u8], pos: usize) -> (r: Result<(PickItem, usize), DeserializeError>) {
        match <PickItemFields as Serialize>::deserialize(buf, pos) {
            Ok((slot, p)) => {
                Ok((PickItem { slot }, p))
            },
            Err(e) => Err(e),
        }
    }

    proof fn lemma_round_trip(m: Self::Model, rest: Seq<u8>) {
        <PickItemFields as Serialize>::lemma_round_trip(m, rest);
    }

    proof fn lemma_parse_len(s: Seq<u8>) {
        <PickItemFields as Serialize>::lemma_parse_len(s);
    }
}

/// The fields of [`PlaceRecipe`], in wire order.
pub type PlaceRecipeFields = (i8, (String, bool));

/// Places a recipe in a crafting window.
#[derive(Debug, Clone)]
pub struct PlaceRecipe {
    pub window_id: i8,
    pub recipe: String,
    pub make_all: bool,
}

impl Serialize for PlaceRecipe {
    type Model = <PlaceRecipeFields as Serialize>::Model;

    open spec fn model(&self) -> Self::Model {
        (self.window_id.model(), (self.recipe.model(), self.make_all.model()))
    }

    open spec fn self_delimited() -> bool {
        <PlaceRecipeFields as Serialize>::self_delimited()
    }

    open spec fn valid(m: Self::Model) -> bool {
        <PlaceRecipeFields as Serialize>::valid(m)
    }

    open spec fn encode(m: Self::Model) -> Seq<u8> {
        <PlaceRecipeFields as Serialize>::encode(m)
    }

    open spec fn parse(s: Seq<u8>) -> Result<(Self::Model, nat), DeserializeError> {
        <PlaceRecipeFields as Serialize>::parse(s)
    }

    fn serialize(&self, buf: &mut Vec<u8>) {
        self.window_id.serialize(buf);
        self.recipe.serialize(buf);
        self.make_all.serialize(buf);
        assert(final(buf)@ =~= old(buf)@ + Self::encode(self.model()));
    }

    fn deserialize(buf: &[u8], pos: usize) -> (r: Result<(PlaceRecipe, usize), DeserializeError>) {
        match <PlaceRecipeFields as Serialize>::deserialize(buf, pos) {
            Ok(((window_id, (recipe, make_all)), p)) => {
                Ok((PlaceRecipe { window_id, recipe, make_all }, p))
            },
            Err(e) => Err(e),
        }
    }

    proof fn lemma_round_trip(m: Self::Model, rest: Seq<u8>) {
        <PlaceRecipeFields as Serialize>::lemma_round_trip(m, rest);
    }

    proof fn lemma_parse_len(s: Seq<u8>) {
        <PlaceRecipeFields as Serialize>::lemma_parse_len(s);
    }
}

/// The fields of [`PlayerAbilities`], in wire order.
pub type PlayerAbilitiesFields = u8;

/// The player's ability flags; bits the protocol does not name are kept.
#[derive(Debug, Clone)]
pub struct PlayerAbilities {
    pub flags: u8,
}

impl Serialize for PlayerAbilities {
    type Model = <PlayerAbilitiesFields as Serialize>::Model;

    open spec fn model(&self) -> Self::Model {
        self.flags.model()
    }

    open spec fn self_delimited() -> bool {
        <PlayerAbilitiesFields as Serialize>::self_delimited()
    }

    open spec fn valid(m: Self::Model) -> bool {
        <PlayerAbilitiesFields as Serialize>::valid(m)
    }

    open spec fn encode(m: Self::Model) -> Seq<u8> {
        <PlayerAbilitiesFields as Serialize>::encode(m)
    }

    open spec fn parse(s: Seq<u8>) -> Result<(Self::Model, nat), DeserializeError> {
        <PlayerAbilitiesFields as Serialize>::parse(s)
    }

    fn serialize(&self, buf: &mut Vec<u8>) {
        self.flags.serialize(buf);
        assert(final(buf)@ =~= old(buf)@ + Self::encode(self.model()));
    }

    fn deserialize(buf: &[u8], pos: usize) -> (r: Result<(PlayerAbilities, usize), DeserializeError>) {
        match <PlayerAbilitiesFields as Serialize>::deserialize(buf, pos) {
            Ok((flags, p)) => {
                Ok((PlayerAbilities { flags }, p))
            },
            Err(e) => Err(e),
        }
    }

    proof fn lemma_round_trip(m: Self::Model, rest: Seq<u8>) {
        <PlayerAbilitiesFields as Serialize>::lemma_round_trip(m, rest);
    }

    proof fn lemma_parse_len(s: Seq<u8>) {
        <PlayerAbilitiesFields as Serialize>::lemma_parse_len(s);
    }
}

/// The fields of [`PlayerAction`], in wire order.
pub type PlayerActionFields = (PlayerActionStatus, (Position, (Face, VarInt)));

/// Digging and item actions at a block face.
#[derive(Debug, Clone)]
pub struct PlayerAction {
    pub status: PlayerActionStatus,
    pub position: Position,
    pub face: Face,
    pub sequence: VarInt,
}

impl Serialize for PlayerAction {
    type Model = <PlayerActionFields as Serialize>::Model;

    open spec fn model(&self) -> Self::Model {
        (
            self.status.model(),
            (self.position.model(), (self.face.model(), self.sequence.model())),
        )
    }

    open spec fn self_delimited() -> bool {
        <PlayerActionFields as Serialize>::self_delimited()
    }

    open spec fn valid(m: Self::Model) -> bool {
        <PlayerActionFields as Serialize>::valid(m)
    }

    open spec fn encode(m: Self::Model) -> Seq<u8> {
        <PlayerActionFields as Serialize>::encode(m)
    }

    open spec fn parse(s: Seq<u8>) -> Result<(Self::Model, nat), DeserializeError> {
        <PlayerActionFields as Serialize>::parse(s)
    }

    fn serialize(&self, buf: &mut Vec<u8>) {
        self.status.serialize(buf);
        self.position.serialize(buf);
        self.face.serialize(buf);
        self.sequence.serialize(buf);
        assert(final(buf)@ =~= old(buf)@ + Self::encode(self.model()));
    }

    fn deserialize(buf: &[u8], pos: usize) -> (r: Result<(PlayerAction, usize), DeserializeError>) {
        match <PlayerActionFields as Serialize>::deserialize(buf, pos) {
            Ok(((status, (position, (face, sequence))), p)) => {
                Ok((PlayerAction { status, position, face, sequence }, p))
            },
            Err(e) => Err(e),
        }
    }

    proof fn lemma_round_trip(m: Self::Model, rest: Seq<u8>) {
        <PlayerActionFields as Serialize>::lemma_round_trip(m, rest);
    }

    proof fn lemma_parse_len(s: Seq<u8>) {
        <PlayerActionFields as Serialize>::lemma_parse_len(s);
    }
}

/// The fields of [`PlayerCommand`], in wire order.
pub type PlayerCommandFields = (VarInt, (PlayerCommandAction, VarInt));

/// Sneaking, sprinting and the like.
#[derive(Debug, Clone)]
pub struct PlayerCommand {
    pub player_id: VarInt,
    pub action_id: PlayerCommandAction,
    pub jump_boost: VarInt,
}

impl Serialize for PlayerCommand {
    type Model = <PlayerCommandFields as Serialize>::Model;

    open spec fn model(&self) -> Self::Model {
        (self.player_id.model(), (self.action_id.model(), self.jump_boost.model()))
    }

    open spec fn self_delimited() -> bool {
        <PlayerCommandFields as Serialize>::self_delimited()
    }

    open spec fn valid(m: Self::Model) -> bool {
        <PlayerCommandFields as Serialize>::valid(m)
    }

    open spec fn encode(m: Self::Model) -> Seq<u8> {
        <PlayerCommandFields as Serialize>::encode(m)
    }

    open spec fn parse(s: Seq<u8>) -> Result<(Self::Model, nat), DeserializeError> {
        <PlayerCommandFields as Serialize>::parse(s)
    }

    fn serialize(&self, buf: &mut Vec<u8>) {
        self.player_id.serialize(buf);
        self.action_id.serialize(buf);
        self.jump_boost.serialize(buf);
        assert(final(buf)@ =~= old(buf)@ + Self::encode(self.model()));
    }

    fn deserialize(buf: &[u8], pos: usize) -> (r: Result<(PlayerCommand, usize), DeserializeError>) {
        match <PlayerCommandFields as Serialize>::deserialize(buf, pos) {
            Ok(((player_id, (action_id, jump_boost)), p)) => {
                Ok((PlayerCommand { player_id, action_id, jump_boost }, p))
            },
            Err(e) => Err(e),
        }
    }

    proof fn lemma_round_trip(m: Self::Model, rest: Seq<u8>) {
        <PlayerCommandFields as Serialize>::lemma_round_trip(m, rest);
    }

    proof fn lemma_parse_len(s: Seq<u8>) {
        <PlayerCommandFields as Serialize>::lemma_parse_len(s);
    }
}

/// The fields of [`Pong`], in wire order.
pub type PongFields = i32;

/// Answers a ping with its id.
#[derive(Debug, Clone)]
pub struct Pong {
    pub id: i32,
}

impl Serialize for Pong {
    type Model = <PongFields as Serialize>::Model;

    open spec fn model(&self) -> Self::Model {
        self.id.model()
    }

    open spec fn self_delimited() -> bool {
        <PongFields as Serialize>::self_delimited()
    }

    open spec fn valid(m: Self::Model) -> bool {
        <PongFields as Serialize>::valid(m)
    }

    open spec fn encode(m: Self::Model) -> Seq<u8> {
        <PongFields as Serialize>::encode(m)
    }

    open spec fn parse(s: Seq<u8>) -> Result<(Self::Model, nat), DeserializeError> {
        <PongFields as Serialize>::parse(s)
    }

    fn serialize(&self, buf: &mut Vec<u8>) {
        self.id.serialize(buf);
        assert(final(buf)@ =~= old(buf)@ + Self::encode(self.model()));
    }

    fn deserialize(buf: &[u8], pos: usize) -> (r: Result<(Pong, usize), DeserializeError>) {
        match <PongFields as Serialize>::deserialize(buf, pos) {
            Ok((id, p)) => {
                Ok((Pong { id }, p))
            },
            Err(e) => Err(e),
        }
    }

    proof fn lemma_round_trip(m: Self::Model, rest: Seq<u8>) {
        <PongFields as Serialize>::lemma_round_trip(m, rest);
    }

    proof fn lemma_parse_len(s: Seq<u8>) {
        <PongFields as Serialize>::lemma_parse_len(s);
    }
}

/// The fields of [`EntityAnimation`], in wire order.
pub type EntityAnimationFields = (VarInt, EntityAnimationId);

/// Plays an animation on an entity.
#[derive(Debug, Clone)]
pub struct EntityAnimation {
    pub entity_id: VarInt,
    pub animation: EntityAnimationId,
}

impl Serialize for EntityAnimation {
    type Model = <EntityAnimationFields as Serialize>::Model;

    open spec fn model(&self) -> Self::Model {
        (self.entity_id.model(), self.animation.model())
    }

    open spec fn self_delimited() -> bool {
        <EntityAnimationFields as Serialize>::self_delimited()
    }

    open spec fn valid(m: Self::Model) -> bool {
        <EntityAnimationFields as Serialize>::valid(m)
    }

    open spec fn encode(m: Self::Model) -> Seq<u8> {
        <EntityAnimationFields as Serialize>::encode(m)
    }

    open spec fn parse(s: Seq<u8>) -> Result<(Self::Model, nat), DeserializeError> {
        <EntityAnimationFields as Serialize>::parse(s)
    }

    fn serialize(&self, buf: &mut Vec<u8>) {
        self.entity_id.serialize(buf);
        self.animation.serialize(buf);
        assert(final(buf)@ =~= old(buf)@ + Self::encode(self.model()));
    }

    fn deserialize(buf: &[u8], pos: usize) -> (r: Result<(EntityAnimation, usize), DeserializeError>) {
        match <EntityAnimationFields as Serialize>::deserialize(buf, pos) {
            Ok(((entity_id, animation), p)) => {
                Ok((EntityAnimation { entity_id, animation }, p))
            },
            Err(e) => Err(e),
        }
    }

    proof fn lemma_round_trip(m: Self::Model, rest: Seq<u8>) {
        <EntityAnimationFields as Serialize>::lemma_round_trip(m, rest);
    }

    proof fn lemma_parse_len(s: Seq<u8>) {
        <EntityAnimationFields as Serialize>::lemma_parse_len(s);
    }
}

/// A face of a block.
#[derive(Debug, Clone, Copy, PartialEq, Eq, Structural)]
pub enum Face {
    Bottom,
    Top,
    North,
    South,
    West,
    East,
}

impl Face {
    /// The tag that stands for this variant on the wire.
    pub open spec fn spec_tag(self) -> u8 {
        match self {
            Face::Bottom => 0,
            Face::Top => 1,
            Face::North => 2,
            Face::South => 3,
            Face::West => 4,
            Face::East => 5,
        }
    }

    /// The variant that `tag` stands for, if any.
    pub open spec fn spec_from_tag(tag: u8) -> Option<Face> {
        if tag == 0 {
            Some(Face::Bottom)
        } else if tag == 1 {
            Some(Face::Top)
        } else if tag == 2 {
            Some(Face::North)
        } else if tag == 3 {
            Some(Face::South)
        } else if tag == 4 {
            Some(Face::West)
        } else if tag == 5 {
            Some(Face::East)
        } else {
            None
        }
    }

    /// The tag that stands for this variant on the wire.
    pub fn tag(&self) -> (r: u8)
        ensures
            r == self.spec_tag(),
    {
        match self {
            Face::Bottom => 0,
            Face::Top => 1,
            Face::North => 2,
            Face::South => 3,
            Face::West => 4,
            Face::East => 5,
        }
    }
}

impl Serialize for Face {
    type Model = Face;

    open spec fn model(&self) -> Face {
        *self
    }

    open spec fn self_delimited() -> bool {
        true
    }

    open spec fn valid(m: Face) -> bool {
        true
    }

    open spec fn encode(m: Face) -> Seq<u8> {
        seq![m.spec_tag()]
    }

    open spec fn parse(s: Seq<u8>) -> Result<(Face, nat), DeserializeError> {
        match <u8 as Serialize>::parse(s) {
            Err(e) => Err(e),
            Ok((t, n)) => match Face::spec_from_tag(t) {
                Some(v) => Ok((v, n)),
                None => Err(DeserializeError::InvalidEnumVariant("Face", t as i64)),
            },
        }
    }

    fn serialize(&self, buf: &mut Vec<u8>) {
        let t = self.tag();
        buf.push(t);
        assert(final(buf)@ =~= old(buf)@ + seq![t]);
    }

    fn deserialize(buf: &[u8], pos: usize) -> (r: Result<(Face, usize), DeserializeError>) {
        match <u8 as Serialize>::deserialize(buf, pos) {
            Err(e) => Err(e),
            Ok((v, p)) => {
                let t = v;
                if t == 0 {
                    Ok((Face::Bottom, p))
                } else if t == 1 {
                    Ok((Face::Top, p))
                } else if t == 2 {
                    Ok((Face::North, p))
                } else if t == 3 {
                    Ok((Face::South, p))
                } else if t == 4 {
                    Ok((Face::West, p))
                } else if t == 5 {
                    Ok((Face::East, p))
                } else {
                    Err(DeserializeError::InvalidEnumVariant("Face", t as i64))
                }
            },
        }
    }

    proof fn lemma_round_trip(m: Face, rest: Seq<u8>) {
        <u8 as Serialize>::lemma_round_trip(m.spec_tag(), rest);
    }

    proof fn lemma_parse_len(s: Seq<u8>) {
        
    }
}

/// A hand of the player.
#[derive(Debug, Clone, Copy, PartialEq, Eq, Structural)]
pub enum Hand {
    MainHand,
    OffHand,
}

impl Hand {
    /// The tag that stands for this variant on the wire.
    pub open spec fn spec_tag(self) -> i32 {
        match self {
            Hand::MainHand => 0,
            Hand::OffHand => 1,
        }
    }

    /// The variant that `tag` stands for, if any.
    pub open spec fn spec_from_tag(tag: i32) -> Option<Hand> {
        if tag == 0 {
            Some(Hand::MainHand)
        } else if tag == 1 {
            Some(Hand::OffHand)
        } else {
            None
        }
    }

    /// The tag that stands for this variant on the wire.
    pub fn tag(&self) -> (r: i32)
        ensures
            r == self.spec_tag(),
    {
        match self {
            Hand::MainHand => 0,
            Hand::OffHand => 1,
        }
    }
}

impl Serialize for Hand {
    type Model = Hand;

    open spec fn model(&self) -> Hand {
        *self
    }

    open spec fn self_delimited() -> bool {
        true
    }

    open spec fn valid(m: Hand) -> bool {
        true
    }

    open spec fn encode(m: Hand) -> Seq<u8> {
        varint_bytes(m.spec_tag())
    }

    open spec fn parse(s: Seq<u8>) -> Result<(Hand, nat), DeserializeError> {
        match parse_varint(s) {
            Err(e) => Err(e),
            Ok((t, n)) => match Hand::spec_from_tag(t) {
                Some(v) => Ok((v, n)),
                None => Err(DeserializeError::InvalidEnumVariant("Hand", t as i64)),
            },
        }
    }

    fn serialize(&self, buf: &mut Vec<u8>) {
        let t = self.tag();
        VarInt(t).serialize(buf);
    }

    fn deserialize(buf: &[u8], pos: usize) -> (r: Result<(Hand, usize), DeserializeError>) {
        match <VarInt as Serialize>::deserialize(buf, pos) {
            Err(e) => Err(e),
            Ok((v, p)) => {
                let t = v.0;
                if t == 0 {
                    Ok((Hand::MainHand, p))
                } else if t == 1 {
                    Ok((Hand::OffHand, p))
                } else {
                    Err(DeserializeError::InvalidEnumVariant("Hand", t as i64))
                }
            },
        }
    }

    proof fn lemma_round_trip(m: Hand, rest: Seq<u8>) {
        lemma_varint_round_trip(m.spec_tag(), rest);
    }

    proof fn lemma_parse_len(s: Seq<u8>) {
        lemma_parse_varint_len(s);
    }
}

/// What a player action does.
#[derive(Debug, Clone, Copy, PartialEq, Eq, Structural)]
pub enum PlayerActionStatus {
    StartedDigging,
    CancelledDigging,
    FinishedDigging,
    DropItemStack,
    DropItem,
    UpdateHeldItemState,
    SwapItemInHand,
}

impl PlayerActionStatus {
    /// The tag that stands for this variant on the wire.
    pub open spec fn spec_tag(self) -> i32 {
        match self {
            PlayerActionStatus::StartedDigging => 0,
            PlayerActionStatus::CancelledDigging => 1,
            PlayerActionStatus::FinishedDigging => 2,
            PlayerActionStatus::DropItemStack => 3,
            PlayerActionStatus::DropItem => 4,
            PlayerActionStatus::UpdateHeldItemState => 5,
            PlayerActionStatus::SwapItemInHand => 6,
        }
    }

    /// The variant that `tag` stands for, if any.
    pub open spec fn spec_from_tag(tag: i32) -> Option<PlayerActionStatus> {
        if tag == 0 {
            Some(PlayerActionStatus::StartedDigging)
        } else if tag == 1 {
            Some(PlayerActionStatus::CancelledDigging)
        } else if tag == 2 {
            Some(PlayerActionStatus::FinishedDigging)
        } else if tag == 3 {
            Some(PlayerActionStatus::DropItemStack)
        } else if tag == 4 {
            Some(PlayerActionStatus::DropItem)
        } else if tag == 5 {
            Some(PlayerActionStatus::UpdateHeldItemState)
        } else if tag == 6 {
            Some(PlayerActionStatus::SwapItemInHand)
        } else {
            None
        }
    }

    /// The tag that stands for this variant on the wire.
    pub fn tag(&self) -> (r: i32)
        ensures
            r == self.spec_tag(),
    {
        match self {
            PlayerActionStatus::StartedDigging => 0,
            PlayerActionStatus::CancelledDigging => 1,
            PlayerActionStatus::FinishedDigging => 2,
            PlayerActionStatus::DropItemStack => 3,
            PlayerActionStatus::DropItem => 4,
            PlayerActionStatus::UpdateHeldItemState => 5,
            PlayerActionStatus::SwapItemInHand => 6,
        }
    }
}

impl Serialize for PlayerActionStatus {
    type Model = PlayerActionStatus;

    open spec fn model(&self) -> PlayerActionStatus {
        *self
    }

    open spec fn self_delimited() -> bool {
        true
    }

    open spec fn valid(m: PlayerActionStatus) -> bool {
        true
    }

    open spec fn encode(m: PlayerActionStatus) -> Seq<u8> {
        varint_bytes(m.spec_tag())
    }

    open spec fn parse(s: Seq<u8>) -> Result<(PlayerActionStatus, nat), DeserializeError> {
        match parse_varint(s) {
            Err(e) => Err(e),
            Ok((t, n)) => match PlayerActionStatus::spec_from_tag(t) {
                Some(v) => Ok((v, n)),
                None => Err(DeserializeError::InvalidEnumVariant("PlayerActionStatus", t as i64)),
            },
        }
    }

    fn serialize(&self, buf: &mut Vec<u8>) {
        let t = self.tag();
        VarInt(t).serialize(buf);
    }

    fn deserialize(buf: &[u8], pos: usize) -> (r: Result<(PlayerActionStatus, usize), DeserializeError>) {
        match <VarInt as Serialize>::deserialize(buf, pos) {
            Err(e) => Err(e),
            Ok((v, p)) => {
                let t = v.0;
                if t == 0 {
                    Ok((PlayerActionStatus::StartedDigging, p))
                } else if t == 1 {
                    Ok((PlayerActionStatus::CancelledDigging, p))
                } else if t == 2 {
                    Ok((PlayerActionStatus::FinishedDigging, p))
                } else if t == 3 {
                    Ok((PlayerActionStatus::DropItemStack, p))
                } else if t == 4 {
                    Ok((PlayerActionStatus::DropItem, p))
                } else if t == 5 {
                    Ok((PlayerActionStatus::UpdateHeldItemState, p))
                } else if t == 6 {
                    Ok((PlayerActionStatus::SwapItemInHand, p))
                } else {
                    Err(DeserializeError::InvalidEnumVariant("PlayerActionStatus", t as i64))
                }
            },
        }
    }

    proof fn lemma_round_trip(m: PlayerActionStatus, rest: Seq<u8>) {
        lemma_varint_round_trip(m.spec_tag(), rest);
    }

    proof fn lemma_parse_len(s: Seq<u8>) {
        lemma_parse_varint_len(s);
    }
}

/// What a player command does.
#[derive(Debug, Clone, Copy, PartialEq, Eq, Structural)]
pub enum PlayerCommandAction {
    StartSneaking,
    StopSneaking,
    LeaveBed,
    StartSprinting,
    StopSprinting,
    StartHorseJump,
    StopHorseJump,
    OpenHorseInventory,
    StartFlyingWithElytra,
}

impl PlayerCommandAction {
    /// The tag that stands for this variant on the wire.
    pub open spec fn spec_tag(self) -> i32 {
        match self {
            PlayerCommandAction::StartSneaking => 0,
            PlayerCommandAction::StopSneaking => 1,
            PlayerCommandAction::LeaveBed => 2,
            PlayerCommandAction::StartSprinting => 3,
            PlayerCommandAction::StopSprinting => 4,
            PlayerCommandAction::StartHorseJump => 5,
            PlayerCommandAction::StopHorseJump => 6,
            PlayerCommandAction::OpenHorseInventory => 7,
            PlayerCommandAction::StartFlyingWithElytra => 8,
        }
    }

    /// The variant that `tag` stands for, if any.
    pub open spec fn spec_from_tag(tag: i32) -> Option<PlayerCommandAction> {
        if tag == 0 {
            Some(PlayerCommandAction::StartSneaking)
        } else if tag == 1 {
            Some(PlayerCommandAction::StopSneaking)
        } else if tag == 2 {
            Some(PlayerCommandAction::LeaveBed)
        } else if tag == 3 {
            Some(PlayerCommandAction::StartSprinting)
        } else if tag == 4 {
            Some(PlayerCommandAction::StopSprinting)
        } else if tag == 5 {
            Some(PlayerCommandAction::StartHorseJump)
        } else if tag == 6 {
            Some(PlayerCommandAction::StopHorseJump)
        } else if tag == 7 {
            Some(PlayerCommandAction::OpenHorseInventory)
        } else if tag == 8 {
            Some(PlayerCommandAction::StartFlyingWithElytra)
        } else {
            None
        }
    }

    /// The tag that stands for this variant on the wire.
    pub fn tag(&self) -> (r: i32)
        ensures
            r == self.spec_tag(),
    {
        match self {
            PlayerCommandAction::StartSneaking => 0,
            PlayerCommandAction::StopSneaking => 1,
            PlayerCommandAction::LeaveBed => 2,
            PlayerCommandAction::StartSprinting => 3,
            PlayerCommandAction::StopSprinting => 4,
            PlayerCommandAction::StartHorseJump => 5,
            PlayerCommandAction::StopHorseJump => 6,
            PlayerCommandAction::OpenHorseInventory => 7,
            PlayerCommandAction::StartFlyingWithElytra => 8,
        }
    }
}

impl Serialize for PlayerCommandAction {
    type Model = PlayerCommandAction;

    open spec fn model(&self) -> PlayerCommandAction {
        *self
    }

    open spec fn self_delimited() -> bool {
        true
    }

    open spec fn valid(m: PlayerCommandAction) -> bool {
        true
    }

    open spec fn encode(m: PlayerCommandAction) -> Seq<u8> {
        varint_bytes(m.spec_tag())
    }

    open spec fn parse(s: Seq<u8>) -> Result<(PlayerCommandAction, nat), DeserializeError> {
        match parse_varint(s) {
            Err(e) => Err(e),
            Ok((t, n)) => match PlayerCommandAction::spec_from_tag(t) {
                Some(v) => Ok((v, n)),
                None => Err(DeserializeError::InvalidEnumVariant("PlayerCommandAction", t as i64)),
            },
        }
    }

    fn serialize(&self, buf: &mut Vec<u8>) {
        let t = self.tag();
        VarInt(t).serialize(buf);
    }

    fn deserialize(buf: &[u8], pos: usize) -> (r: Result<(PlayerCommandAction, usize), DeserializeError>) {
        match <VarInt as Serialize>::deserialize(buf, pos) {
            Err(e) => Err(e),
            Ok((v, p)) => {
                let t = v.0;
                if t == 0 {
                    Ok((PlayerCommandAction::StartSneaking, p))
                } else if t == 1 {
                    Ok((PlayerCommandAction::StopSneaking, p))
                } else if t == 2 {
                    Ok((PlayerCommandAction::LeaveBed, p))
                } else if t == 3 {
                    Ok((PlayerCommandAction::StartSprinting, p))
                } else if t == 4 {
                    Ok((PlayerCommandAction::StopSprinting, p))
                } else if t == 5 {
                    Ok((PlayerCommandAction::StartHorseJump, p))
                } else if t == 6 {
                    Ok((PlayerCommandAction::StopHorseJump, p))
                } else if t == 7 {
                    Ok((PlayerCommandAction::OpenHorseInventory, p))
                } else if t == 8 {
                    Ok((PlayerCommandAction::StartFlyingWithElytra, p))
                } else {
                    Err(DeserializeError::InvalidEnumVariant("PlayerCommandAction", t as i64))
                }
            },
        }
    }

    proof fn lemma_round_trip(m: PlayerCommandAction, rest: Seq<u8>) {
        lemma_varint_round_trip(m.spec_tag(), rest);
    }

    proof fn lemma_parse_len(s: Seq<u8>) {
        lemma_parse_varint_len(s);
    }
}

/// An entity animation.
#[derive(Debug, Clone, Copy, PartialEq, Eq, Structural)]
pub enum EntityAnimationId {
    SwingMainArm,
    TakeDamage,
    LeaveBed,
    SwingOffhand,
    CriticalEffect,
    MagicCriticalEffect,
}

impl EntityAnimationId {
    /// The tag that stands for this variant on the wire.
    pub open spec fn spec_tag(self) -> u8 {
        match self {
            EntityAnimationId::SwingMainArm => 0,
            EntityAnimationId::TakeDamage => 1,
            EntityAnimationId::LeaveBed => 2,
            EntityAnimationId::SwingOffhand => 3,
            EntityAnimationId::CriticalEffect => 4,
            EntityAnimationId::MagicCriticalEffect => 5,
        }
    }

    /// The variant that `tag` stands for, if any.
    pub open spec fn spec_from_tag(tag: u8) -> Option<EntityAnimationId> {
        if tag == 0 {
            Some(EntityAnimationId::SwingMainArm)
        } else if tag == 1 {
            Some(EntityAnimationId::TakeDamage)
        } else if tag == 2 {
            Some(EntityAnimationId::LeaveBed)
        } else if tag == 3 {
            Some(EntityAnimationId::SwingOffhand)
        } else if tag == 4 {
            Some(EntityAnimationId::CriticalEffect)
        } else if tag == 5 {
            Some(EntityAnimationId::MagicCriticalEffect)
        } else {
            None
        }
    }

    /// The tag that stands for this variant on the wire.
    pub fn tag(&self) -> (r: u8)
        ensures
            r == self.spec_tag(),
    {
        match self {
            EntityAnimationId::SwingMainArm => 0,
            EntityAnimationId::TakeDamage => 1,
            EntityAnimationId::LeaveBed => 2,
            EntityAnimationId::SwingOffhand => 3,
            EntityAnimationId::CriticalEffect => 4,
            EntityAnimationId::MagicCriticalEffect => 5,
        }
    }
}

impl Serialize for EntityAnimationId {
    type Model = EntityAnimationId;

    open spec fn model(&self) -> EntityAnimationId {
        *self
    }

    open spec fn self_delimited() -> bool {
        true
    }

    open spec fn valid(m: EntityAnimationId) -> bool {
        true
    }

    open spec fn encode(m: EntityAnimationId) -> Seq<u8> {
        seq![m.spec_tag()]
    }

    open spec fn parse(s: Seq<u8>) -> Result<(EntityAnimationId, nat), DeserializeError> {
        match <u8 as Serialize>::parse(s) {
            Err(e) => Err(e),
            Ok((t, n)) => match EntityAnimationId::spec_from_tag(t) {
                Some(v) => Ok((v, n)),
                None => Err(DeserializeError::InvalidEnumVariant("EntityAnimationId", t as i64)),
            },
        }
    }

    fn serialize(&self, buf: &mut Vec<u8>) {
        let t = self.tag();
        buf.push(t);
        assert(final(buf)@ =~= old(buf)@ + seq![t]);
    }

    fn deserialize(buf: &[u8], pos: usize) -> (r: Result<(EntityAnimationId, usize), DeserializeError>) {
        match <u8 as Serialize>::deserialize(buf, pos) {
            Err(e) => Err(e),
            Ok((v, p)) => {
                let t = v;
                if t == 0 {
                    Ok((EntityAnimationId::SwingMainArm, p))
                } else if t == 1 {
                    Ok((EntityAnimationId::TakeDamage, p))
                } else if t == 2 {
                    Ok((EntityAnimationId::LeaveBed, p))
                } else if t == 3 {
                    Ok((EntityAnimationId::SwingOffhand, p))
                } else if t == 4 {
                    Ok((EntityAnimationId::CriticalEffect, p))
                } else if t == 5 {
                    Ok((EntityAnimationId::MagicCriticalEffect, p))
                } else {
                    Err(DeserializeError::InvalidEnumVariant("EntityAnimationId", t as i64))
                }
            },
        }
    }

    proof fn lemma_round_trip(m: EntityAnimationId, rest: Seq<u8>) {
        <u8 as Serialize>::lemma_round_trip(m.spec_tag(), rest);
    }

    proof fn lemma_parse_len(s: Seq<u8>) {
        
    }
}

/// The fields of [`ArgumentSignature`], in wire order.
pub type ArgumentSignatureFields = (String, Vec<u8>);

/// The signature of one command argument.
#[derive(Debug, Clone)]
pub struct ArgumentSignature {
    pub name: String,
    pub signature: Vec<u8>,
}

impl Serialize for ArgumentSignature {
    type Model = <ArgumentSignatureFields as Serialize>::Model;

    open spec fn model(&self) -> Self::Model {
        (self.name.model(), self.signature.model())
    }

    open spec fn self_delimited() -> bool {
        <ArgumentSignatureFields as Serialize>::self_delimited()
    }

    open spec fn valid(m: Self::Model) -> bool {
        <ArgumentSignatureFields as Serialize>::valid(m)
    }

    open spec fn encode(m: Self::Model) -> Seq<u8> {
        <ArgumentSignatureFields as Serialize>::encode(m)
    }

    open spec fn parse(s: Seq<u8>) -> Result<(Self::Model, nat), DeserializeError> {
        <ArgumentSignatureFields as Serialize>::parse(s)
    }

    fn serialize(&self, buf: &mut Vec<u8>) {
        self.name.serialize(buf);
        self.signature.serialize(buf);
        assert(final(buf)@ =~= old(buf)@ + Self::encode(self.model()));
    }

    fn deserialize(buf: &[u8], pos: usize) -> (r: Result<(ArgumentSignature, usize), DeserializeError>) {
        match <ArgumentSignatureFields as Serialize>::deserialize(buf, pos) {
            Ok(((name, signature), p)) => {
                Ok((ArgumentSignature { name, signature }, p))
            },
            Err(e) => Err(e),
        }
    }

    proof fn lemma_round_trip(m: Self::Model, rest: Seq<u8>) {
        <ArgumentSignatureFields as Serialize>::lemma_round_trip(m, rest);
    }

    proof fn lemma_parse_len(s: Seq<u8>) {
        <ArgumentSignatureFields as Serialize>::lemma_parse_len(s);
    }
}

/// The difficulty of the world.
#[derive(Debug, Clone, Copy, PartialEq, Eq, Structural)]
pub enum Difficulty {
    Peaceful,
    Easy,
    Normal,
    Hard,
}

impl Difficulty {
    /// The tag that stands for this variant on the wire.
    pub open spec fn spec_tag(self) -> u8 {
        match self {
            Difficulty::Peaceful => 0,
            Difficulty::Easy => 1,
            Difficulty::Normal => 2,
            Difficulty::Hard => 3,
        }
    }

    /// The variant that `tag` stands for, if any.
    pub open spec fn spec_from_tag(tag: u8) -> Option<Difficulty> {
        if tag == 0 {
            Some(Difficulty::Peaceful)
        } else if tag == 1 {
            Some(Difficulty::Easy)
        } else if tag == 2 {
            Some(Difficulty::Normal)
        } else if tag == 3 {
            Some(Difficulty::Hard)
        } else {
            None
        }
    }

    /// The tag that stands for this variant on the wire.
    pub fn tag(&self) -> (r: u8)
        ensures
            r == self.spec_tag(),
    {
        match self {
            Difficulty::Peaceful => 0,
            Difficulty::Easy => 1,
            Difficulty::Normal => 2,
            Difficulty::Hard => 3,
        }
    }
}

impl Serialize for Difficulty {
    type Model = Difficulty;

    open spec fn model(&self) -> Difficulty {
        *self
    }

    open spec fn self_delimited() -> bool {
        true
    }

    open spec fn valid(m: Difficulty) -> bool {
        true
    }

    open spec fn encode(m: Difficulty) -> Seq<u8> {
        seq![m.spec_tag()]
    }

    open spec fn parse(s: Seq<u8>) -> Result<(Difficulty, nat), DeserializeError> {
        match <u8 as Serialize>::parse(s) {
            Err(e) => Err(e),
            Ok((t, n)) => match Difficulty::spec_from_tag(t) {
                Some(v) => Ok((v, n)),
                None => Err(DeserializeError::InvalidEnumVariant("Difficulty", t as i64)),
            },
        }
    }

    fn serialize(&self, buf: &mut Vec<u8>) {
        let t = self.tag();
        buf.push(t);
        assert(final(buf)@ =~= old(buf)@ + seq![t]);
    }

    fn deserialize(buf: &[u8], pos: usize) -> (r: Result<(Difficulty, usize), DeserializeError>) {
        match <u8 as Serialize>::deserialize(buf, pos) {
            Err(e) => Err(e),
            Ok((v, p)) => {
                let t = v;
                if t == 0 {
                    Ok((Difficulty::Peaceful, p))
                } else if t == 1 {
                    Ok((Difficulty::Easy, p))
                } else if t == 2 {
                    Ok((Difficulty::Normal, p))
                } else if t == 3 {
                    Ok((Difficulty::Hard, p))
                } else {
                    Err(DeserializeError::InvalidEnumVariant("Difficulty", t as i64))
                }
            },
        }
    }

    proof fn lemma_round_trip(m: Difficulty, rest: Seq<u8>) {
        <u8 as Serialize>::lemma_round_trip(m.spec_tag(), rest);
    }

    proof fn lemma_parse_len(s: Seq<u8>) {
        
    }
}

/// What a client command asks for.
#[derive(Debug, Clone, Copy, PartialEq, Eq, Structural)]
pub enum ActionId {
    PerformRespawn,
    RequestStats,
}

impl ActionId {
    /// The tag that stands for this variant on the wire.
    pub open spec fn spec_tag(self) -> i32 {
        match self {
            ActionId::PerformRespawn => 0,
            ActionId::RequestStats => 1,
        }
    }

    /// The variant that `tag` stands for, if any.
    pub open spec fn spec_from_tag(tag: i32) -> Option<ActionId> {
        if tag == 0 {
            Some(ActionId::PerformRespawn)
        } else if tag == 1 {
            Some(ActionId::RequestStats)
        } else {
            None
        }
    }

    /// The tag that stands for this variant on the wire.
    pub fn tag(&self) -> (r: i32)
        ensures
            r == self.spec_tag(),
    {
        match self {
            ActionId::PerformRespawn => 0,
            ActionId::RequestStats => 1,
        }
    }
}

impl Serialize for ActionId {
    type Model = ActionId;

    open spec fn model(&self) -> ActionId {
        *self
    }

    open spec fn self_delimited() -> bool {
        true
    }

    open spec fn valid(m: ActionId) -> bool {
        true
    }

    open spec fn encode(m: ActionId) -> Seq<u8> {
        varint_bytes(m.spec_tag())
    }

    open spec fn parse(s: Seq<u8>) -> Result<(ActionId, nat), DeserializeError> {
        match parse_varint(s) {
            Err(e) => Err(e),
            Ok((t, n)) => match ActionId::spec_from_tag(t) {
                Some(v) => Ok((v, n)),
                None => Err(DeserializeError::InvalidEnumVariant("ActionId", t as i64)),
            },
        }
    }

    fn serialize(&self, buf: &mut Vec<u8>) {
        let t = self.tag();
        VarInt(t).serialize(buf);
    }

    fn deserialize(buf: &[u8], pos: usize) -> (r: Result<(ActionId, usize), DeserializeError>) {
        match <VarInt as Serialize>::deserialize(buf, pos) {
            Err(e) => Err(e),
            Ok((v, p)) => {
                let t = v.0;
                if t == 0 {
                    Ok((ActionId::PerformRespawn, p))
                } else if t == 1 {
                    Ok((ActionId::RequestStats, p))
                } else {
                    Err(DeserializeError::InvalidEnumVariant("ActionId", t as i64))
                }
            },
        }
    }

    proof fn lemma_round_trip(m: ActionId, rest: Seq<u8>) {
        lemma_varint_round_trip(m.spec_tag(), rest);
    }

    proof fn lemma_parse_len(s: Seq<u8>) {
        lemma_parse_varint_len(s);
    }
}

/// Which chat messages the client shows.
#[derive(Debug, Clone, Copy, PartialEq, Eq, Structural)]
pub enum ChatMode {
    Enabled,
    CommandsOnly,
    Hidden,
}

impl ChatMode {
    /// The tag that stands for this variant on the wire.
    pub open spec fn spec_tag(self) -> i32 {
        match self {
            ChatMode::Enabled => 0,
            ChatMode::CommandsOnly => 1,
            ChatMode::Hidden => 2,
        }
    }

    /// The variant that `tag` stands for, if any.
    pub open spec fn spec_from_tag(tag: i32) -> Option<ChatMode> {
        if tag == 0 {
            Some(ChatMode::Enabled)
        } else if tag == 1 {
            Some(ChatMode::CommandsOnly)
        } else if tag == 2 {
            Some(ChatMode::Hidden)
        } else {
            None
        }
    }

    /// The tag that stands for this variant on the wire.
    pub fn tag(&self) -> (r: i32)
        ensures
            r == self.spec_tag(),
    {
        match self {
            ChatMode::Enabled => 0,
            ChatMode::CommandsOnly => 1,
            ChatMode::Hidden => 2,
        }
    }
}

impl Serialize for ChatMode {
    type Model = ChatMode;

    open spec fn model(&self) -> ChatMode {
        *self
    }

    open spec fn self_delimited() -> bool {
        true
    }

    open spec fn valid(m: ChatMode) -> bool {
        true
    }

    open spec fn encode(m: ChatMode) -> Seq<u8> {
        varint_bytes(m.spec_tag())
    }

    open spec fn parse(s: Seq<u8>) -> Result<(ChatMode, nat), DeserializeError> {
        match parse_varint(s) {
            Err(e) => Err(e),
            Ok((t, n)) => match ChatMode::spec_from_tag(t) {
                Some(v) => Ok((v, n)),
                None => Err(DeserializeError::InvalidEnumVariant("ChatMode", t as i64)),
            },
        }
    }

    fn serialize(&self, buf: &mut Vec<u8>) {
        let t = self.tag();
        VarInt(t).serialize(buf);
    }

    fn deserialize(buf: &[u8], pos: usize) -> (r: Result<(ChatMode, usize), DeserializeError>) {
        match <VarInt as Serialize>::deserialize(buf, pos) {
            Err(e) => Err(e),
            Ok((v, p)) => {
                let t = v.0;
                if t == 0 {
                    Ok((ChatMode::Enabled, p))
                } else if t == 1 {
                    Ok((ChatMode::CommandsOnly, p))
                } else if t == 2 {
                    Ok((ChatMode::Hidden, p))
                } else {
                    Err(DeserializeError::InvalidEnumVariant("ChatMode", t as i64))
                }
            },
        }
    }

    proof fn lemma_round_trip(m: ChatMode, rest: Seq<u8>) {
        lemma_varint_round_trip(m.spec_tag(), rest);
    }

    proof fn lemma_parse_len(s: Seq<u8>) {
        lemma_parse_varint_len(s);
    }
}

/// The hand the player uses most.
#[derive(Debug, Clone, Copy, PartialEq, Eq, Structural)]
pub enum MainHand {
    Left,
    Right,
}

impl MainHand {
    /// The tag that stands for this variant on the wire.
    pub open spec fn spec_tag(self) -> i32 {
        match self {
            MainHand::Left => 0,
            MainHand::Right => 1,
        }
    }

    /// The variant that `tag` stands for, if any.
    pub open spec fn spec_from_tag(tag: i32) -> Option<MainHand> {
        if tag == 0 {
            Some(MainHand::Left)
        } else if tag == 1 {
            Some(MainHand::Right)
        } else {
            None
        }
    }

    /// The tag that stands for this variant on the wire.
    pub fn tag(&self) -> (r: i32)
        ensures
            r == self.spec_tag(),
    {
        match self {
            MainHand::Left => 0,
            MainHand::Right => 1,
        }
    }
}

impl Serialize for MainHand {
    type Model = MainHand;

    open spec fn model(&self) -> MainHand {
        *self
    }

    open spec fn self_delimited() -> bool {
        true
    }

    open spec fn valid(m: MainHand) -> bool {
        true
    }

    open spec fn encode(m: MainHand) -> Seq<u8> {
        varint_bytes(m.spec_tag())
    }

    open spec fn parse(s: Seq<u8>) -> Result<(MainHand, nat), DeserializeError> {
        match parse_varint(s) {
            Err(e) => Err(e),
            Ok((t, n)) => match MainHand::spec_from_tag(t) {
                Some(v) => Ok((v, n)),
                None => Err(DeserializeError::InvalidEnumVariant("MainHand", t as i64)),
            },
        }
    }

    fn serialize(&self, buf: &mut Vec<u8>) {
        let t = self.tag();
        VarInt(t).serialize(buf);
    }

    fn deserialize(buf: &[u8], pos: usize) -> (r: Result<(MainHand, usize), DeserializeError>) {
        match <VarInt as Serialize>::deserialize(buf, pos) {
            Err(e) => Err(e),
            Ok((v, p)) => {
                let t = v.0;
                if t == 0 {
                    Ok((MainHand::Left, p))
                } else if t == 1 {
                    Ok((MainHand::Right, p))
                } else {
                    Err(DeserializeError::InvalidEnumVariant("MainHand", t as i64))
                }
            },
        }
    }

    proof fn lemma_round_trip(m: MainHand, rest: Seq<u8>) {
        lemma_varint_round_trip(m.spec_tag(), rest);
    }

    proof fn lemma_parse_len(s: Seq<u8>) {
        lemma_parse_varint_len(s);
    }
}

/// How a container slot was clicked.
#[derive(Debug, Clone, Copy, PartialEq, Eq, Structural)]
pub enum InventoryOperationMode {
    MouseClick,
    ShiftMouseClick,
    NumKey,
    MiddleClick,
    DropKey,
    Drag,
    DoubleClick,
}

impl InventoryOperationMode {
    /// The tag that stands for this variant on the wire.
    pub open spec fn spec_tag(self) -> i32 {
        match self {
            InventoryOperationMode::MouseClick => 0,
            InventoryOperationMode::ShiftMouseClick => 1,
            InventoryOperationMode::NumKey => 2,
            InventoryOperationMode::MiddleClick => 3,
            InventoryOperationMode::DropKey => 4,
            InventoryOperationMode::Drag => 5,
            InventoryOperationMode::DoubleClick => 6,
        }
    }

    /// The variant that `tag` stands for, if any.
    pub open spec fn spec_from_tag(tag: i32) -> Option<InventoryOperationMode> {
        if tag == 0 {
            Some(InventoryOperationMode::MouseClick)
        } else if tag == 1 {
            Some(InventoryOperationMode::ShiftMouseClick)
        } else if tag == 2 {
            Some(InventoryOperationMode::NumKey)
        } else if tag == 3 {
            Some(InventoryOperationMode::MiddleClick)
        } else if tag == 4 {
            Some(InventoryOperationMode::DropKey)
        } else if tag == 5 {
            Some(InventoryOperationMode::Drag)
        } else if tag == 6 {
            Some(InventoryOperationMode::DoubleClick)
        } else {
            None
        }
    }

    /// The tag that stands for this variant on the wire.
    pub fn tag(&self) -> (r: i32)
        ensures
            r == self.spec_tag(),
    {
        match self {
            InventoryOperationMode::MouseClick => 0,
            InventoryOperationMode::ShiftMouseClick => 1,
            InventoryOperationMode::NumKey => 2,
            InventoryOperationMode::MiddleClick => 3,
            InventoryOperationMode::DropKey => 4,
            InventoryOperationMode::Drag => 5,
            InventoryOperationMode::DoubleClick => 6,
        }
    }
}

impl Serialize for InventoryOperationMode {
    type Model = InventoryOperationMode;

    open spec fn model(&self) -> InventoryOperationMode {
        *self
    }

    open spec fn self_delimited() -> bool {
        true
    }

    open spec fn valid(m: InventoryOperationMode) -> bool {
        true
    }

    open spec fn encode(m: InventoryOperationMode) -> Seq<u8> {
        varint_bytes(m.spec_tag())
    }

    open spec fn parse(s: Seq<u8>) -> Result<(InventoryOperationMode, nat), DeserializeError> {
        match parse_varint(s) {
            Err(e) => Err(e),
            Ok((t, n)) => match InventoryOperationMode::spec_from_tag(t) {
                Some(v) => Ok((v, n)),
                None => Err(DeserializeError::InvalidEnumVariant("InventoryOperationMode", t as i64)),
            },
        }
    }

    fn serialize(&self, buf: &mut Vec<u8>) {
        let t = self.tag();
        VarInt(t).serialize(buf);
    }

    fn deserialize(buf: &[u8], pos: usize) -> (r: Result<(InventoryOperationMode, usize), DeserializeError>) {
        match <VarInt as Serialize>::deserialize(buf, pos) {
            Err(e) => Err(e),
            Ok((v, p)) => {
                let t = v.0;
                if t == 0 {
                    Ok((InventoryOperationMode::MouseClick, p))
                } else if t == 1 {
                    Ok((InventoryOperationMode::ShiftMouseClick, p))
                } else if t == 2 {
                    Ok((InventoryOperationMode::NumKey, p))
                } else if t == 3 {
                    Ok((InventoryOperationMode::MiddleClick, p))
                } else if t == 4 {
                    Ok((InventoryOperationMode::DropKey, p))
                } else if t == 5 {
                    Ok((InventoryOperationMode::Drag, p))
                } else if t == 6 {
                    Ok((InventoryOperationMode::DoubleClick, p))
                } else {
                    Err(DeserializeError::InvalidEnumVariant("InventoryOperationMode", t as i64))
                }
            },
        }
    }

    proof fn lemma_round_trip(m: InventoryOperationMode, rest: Seq<u8>) {
        lemma_varint_round_trip(m.spec_tag(), rest);
    }

    proof fn lemma_parse_len(s: Seq<u8>) {
        lemma_parse_varint_len(s);
    }
}

} // verus!
