use vstd::prelude::*;

use crate::codec::{
    check_fields, fields_bytes, fields_view, fields_wf, kind_of, kinds_of, lemma_fields_round_trip,
    lemma_parse_fields_kinds, parse_fields, pop_field, read_fields, take_be16, take_be32,
    take_be64, take_byte, take_signed_be32, take_signed_byte, take_text, write_fields, DecodeError,
    EncodeError, Field, FieldKind, FieldOf,
};
use crate::constants::{
    Constant, HandshakeCookie, HandshakeData, HandshakeDoubleNull, HandshakeFlags, HandshakeUnknown,
};

verus! {

/// An application-level packet, carried inside an encapsulated frame. The
/// text of a string field is an `S`: a `String` in a `GamePacket`, a sequence
/// of characters in its view.
///
/// Every field is big-endian but the lines of `SignUpdate`, whose byte counts
/// are little-endian. A field that the game holds as an IEEE 754
/// single-precision number (a position or a rotation) is kept here as its
/// 32-bit pattern.
#[derive(Clone, Debug, PartialEq, Eq)]
pub enum GamePacketOf<S> {
    /// A client's connected ping. Id 0x00.
    CSPing {
        ping_id: u64,
    },
    /// The server's answer to a connected ping. Id 0x03.
    SCPong {
        ping_id: u64,
        pong_id: u64,
    },
    /// A client asks to open a session. Id 0x09.
    CSClientConnect {
        client_id: u64,
        session: u64,
        unknown: u8,
    },
    /// The server accepts a session. Id 0x10.
    SCServerHandshake {
        cookie: HandshakeCookie,
        flags: HandshakeFlags,
        server_port: u16,
        data: HandshakeData,
        unknown1: HandshakeDoubleNull,
        session: u64,
        unknown2: HandshakeUnknown,
    },
    /// A client confirms the session; only its first byte is read. Id 0x13.
    CSClientHandshake {
        dummy: u8,
    },
    /// A client gives up the session. Id 0x15.
    CSClientCancelConnect {},
    /// A client logs in with its name and protocol versions. Id 0x82.
    CSLogin {
        username: S,
        proto1: u32,
        proto2: u32,
    },
    /// The outcome of a login: 0 accepted, 1 client too old, 2 client too new. Id 0x83.
    SCLoginStatus {
        status: u32,
    },
    /// A client is ready. Id 0x84.
    CSReady {
        status: u8,
    },
    /// A text message for the client. Id 0x85.
    SCMessage {
        message: S,
    },
    /// The time of day. Id 0x86.
    SCSetTime {
        time: u32,
    },
    /// The world the client joins and the entity it plays. Id 0x87.
    SCStartGame {
        seed: u32,
        worldgen_version: u32,
        gamemode: u32,
        entity_id: u32,
        pos_x: u32,
        pos_y: u32,
        pos_z: u32,
    },
    /// A mob appears. Id 0x88.
    SCAddMob {
        entity_id: u32,
        entity_type: u32,
        pos_x: u32,
        pos_y: u32,
        pos_z: u32,
        rot_y: u32,
        rot_x: u32,
        metadata: u8,
    },
    /// Another player appears. Id 0x89.
    SCAddPlayer {
        client_id: i32,
        username: S,
        entity_id: u32,
        pos_x: u32,
        pos_y: u32,
        pos_z: u32,
        rot_y: u8,
        rot_x: u8,
        held_item_id: u32,
        held_item_aux: u32,
        metadata: u8,
    },
    /// A player leaves. Id 0x8a.
    SCRemovePlayer {
        entity_id: u32,
        client_id: i32,
    },
    /// An entity appears. Id 0x8c.
    SCAddEntity {
        entity_id: u32,
        entity_type: u8,
        pos_x: u32,
        pos_y: u32,
        pos_z: u32,
        has_motion: u32,
        speed_x: u32,
        speed_y: u32,
        speed_z: u32,
    },
    /// An entity goes away. Id 0x8d.
    SCRemoveEntity {
        entity_id: u32,
    },
    /// A dropped item appears. Id 0x8e.
    SCAddItemEntity {
        entity_id: u32,
        item_id: u16,
        item_amount: u8,
        item_data: u16,
        pos_x: u32,
        pos_y: u32,
        pos_z: u32,
        speed_x: i8,
        speed_y: i8,
        speed_z: i8,
    },
    /// An entity picks up a dropped item. Id 0x8f.
    SCTakeItemEntity {
        target: u32,
        entity_id: u32,
    },
    /// An entity moves. Id 0x90.
    SCMoveEntity {
        entity_id: u32,
        pos_x: u32,
        pos_y: u32,
        pos_z: u32,
    },
    /// An entity moves and turns. Id 0x93.
    SCMoveEntityWithRotation {
        entity_id: u32,
        pos_x: u32,
        pos_y: u32,
        pos_z: u32,
        rot_y: u32,
        rot_x: u32,
    },
    /// A player moves and turns. Id 0x94.
    MovePlayer {
        entity_id: u32,
        pos_x: u32,
        pos_y: u32,
        pos_z: u32,
        rot_y: u32,
        rot_x: u32,
    },
    /// A player places a block. Id 0x95.
    PlaceBlock {
        entity_id: u32,
        pos_x: u32,
        pos_z: u32,
        pos_y: u8,
        block_id: u8,
        block_aux: u8,
        face: u8,
    },
    /// A player removes a block. Id 0x96.
    RemoveBlock {
        entity_id: u32,
        pos_x: u32,
        pos_z: u32,
        pos_y: u8,
    },
    /// A block changes. Id 0x97.
    SCUpdateBlock {
        pos_x: u32,
        pos_z: u32,
        pos_y: u8,
        block_id: u8,
        block_aux: u8,
    },
    /// A painting appears. Id 0x98.
    SCAddPainting {
        entity_id: u32,
        pos_x: u32,
        pos_y: u32,
        pos_z: u32,
        direction: u32,
        title: S,
    },
    /// An event at a place in the world. Id 0x9a.
    SCLevelEvent {
        event_id: u32,
        pos_x: u32,
        pos_y: u32,
        pos_z: u32,
        data: u32,
    },
    /// An event at a block. Id 0x9b.
    SCTileEvent {
        pos_x: u32,
        pos_y: u32,
        pos_z: u32,
        case1: u32,
        case2: u32,
    },
    /// An event of an entity. Id 0x9c.
    EntityEvent {
        entity_id: u32,
        event: u8,
    },
    /// A client asks for a chunk. Id 0x9d.
    CSRequestChunk {
        index_x: u32,
        index_z: u32,
    },
    /// The data of a chunk; only its first byte is carried. Id 0x9e.
    SCChunkDataPacket {
        index_x: u32,
        index_z: u32,
        chunk_data: u8,
    },
    /// The armour a player wears. Id 0xa0.
    PlayerArmorEquipment {
        entity_id: u32,
        slot0: u8,
        slot1: u8,
        slot2: u8,
        slot3: u8,
    },
    /// A player acts on an entity. Id 0xa1.
    Interact {
        action: u8,
        entity_id: u32,
        target: u32,
    },
    /// A player acts on a block. Id 0xa3.
    CSPlayerAction {
        action: u32,
        pos_x: u32,
        pos_y: u32,
        pos_z: u32,
        face: u32,
        entity_id: u32,
    },
    /// Armour takes damage. Id 0xa5.
    SCHurtArmor {
        health: u8,
    },
    /// The metadata of an entity. Id 0xa6.
    SCSetEntityData {
        entity_id: u32,
        metadata: u8,
    },
    /// The motion of an entity. Id 0xa7.
    SCSetEntityMotion {
        entity_id: u32,
        speed_x: u32,
        speed_y: u32,
        speed_z: u32,
    },
    /// The health of the player. Id 0xa8.
    SCSetHealth {
        health: u8,
    },
    /// Where the player spawns. Id 0xa9.
    SCSetSpawnPosition {
        pos_x: u32,
        pos_z: u32,
        pos_y: u8,
    },
    /// An entity plays an animation. Id 0xaa.
    Animate {
        action: u8,
        entity_id: u32,
    },
    /// A player respawns. Id 0xab.
    Respawn {
        entity_id: u32,
        pos_x: u32,
        pos_y: u32,
        pos_z: u32,
    },
    /// A player drops an item. Id 0xad.
    CSDropItem {
        entity_id: u32,
        is_death: u8,
        item_id: u16,
        item_amount: u8,
        item_data: u16,
    },
    /// A container window opens. Id 0xae.
    SCContainerOpen {
        window_id: u8,
        window_type: u8,
        slot: u8,
        title: S,
    },
    /// A container window closes. Id 0xaf.
    ContainerClose {
        window_id: u8,
    },
    /// A property of a container window. Id 0xb1.
    SCContainerSetData {
        window_id: u8,
        property: u32,
        value: u32,
    },
    /// A chat line from a client. Id 0xb4.
    CSChat {
        message: S,
    },
    /// The four lines of a sign, each behind a little-endian byte count. Id 0xb5.
    SignUpdate {
        pos_x: u16,
        pos_y: u8,
        pos_z: u16,
        line_1: S,
        line_2: S,
        line_3: S,
        line_4: S,
    },
}

pub type GamePacket = GamePacketOf<String>;

/// A game packet whose text is a sequence of characters.
pub type GamePacketView = GamePacketOf<Seq<char>>;

impl View for GamePacketOf<String> {
    type V = GamePacketView;

    open spec fn view(&self) -> GamePacketView {
        match *self {
            GamePacketOf::CSPing { ping_id } => GamePacketOf::CSPing {
                ping_id,
            },
            GamePacketOf::SCPong { ping_id, pong_id } => GamePacketOf::SCPong {
                ping_id,
                pong_id,
            },
            GamePacketOf::CSClientConnect { client_id, session, unknown } => GamePacketOf::CSClientConnect {
                client_id,
                session,
                unknown,
            },
            GamePacketOf::SCServerHandshake { cookie: _, flags: _, server_port, data: _, unknown1: _, session, unknown2: _ } => GamePacketOf::SCServerHandshake {
                cookie: HandshakeCookie,
                flags: HandshakeFlags,
                server_port,
                data: HandshakeData,
                unknown1: HandshakeDoubleNull,
                session,
                unknown2: HandshakeUnknown,
            },
            GamePacketOf::CSClientHandshake { dummy } => GamePacketOf::CSClientHandshake {
                dummy,
            },
            GamePacketOf::CSClientCancelConnect {} => GamePacketOf::CSClientCancelConnect {},
            GamePacketOf::CSLogin { username, proto1, proto2 } => GamePacketOf::CSLogin {
                username: username@,
                proto1,
                proto2,
            },
            GamePacketOf::SCLoginStatus { status } => GamePacketOf::SCLoginStatus {
                status,
            },
            GamePacketOf::CSReady { status } => GamePacketOf::CSReady {
                status,
            },
            GamePacketOf::SCMessage { message } => GamePacketOf::SCMessage {
                message: message@,
            },
            GamePacketOf::SCSetTime { time } => GamePacketOf::SCSetTime {
                time,
            },
            GamePacketOf::SCStartGame { seed, worldgen_version, gamemode, entity_id, pos_x, pos_y, pos_z } => GamePacketOf::SCStartGame {
                seed,
                worldgen_version,
                gamemode,
                entity_id,
                pos_x,
                pos_y,
                pos_z,
            },
            GamePacketOf::SCAddMob { entity_id, entity_type, pos_x, pos_y, pos_z, rot_y, rot_x, metadata } => GamePacketOf::SCAddMob {
                entity_id,
                entity_type,
                pos_x,
                pos_y,
                pos_z,
                rot_y,
                rot_x,
                metadata,
            },
            GamePacketOf::SCAddPlayer { client_id, username, entity_id, pos_x, pos_y, pos_z, rot_y, rot_x, held_item_id, held_item_aux, metadata } => GamePacketOf::SCAddPlayer {
                client_id,
                username: username@,
                entity_id,
                pos_x,
                pos_y,
                pos_z,
                rot_y,
                rot_x,
                held_item_id,
                held_item_aux,
                metadata,
            },
            GamePacketOf::SCRemovePlayer { entity_id, client_id } => GamePacketOf::SCRemovePlayer {
                entity_id,
                client_id,
            },
            GamePacketOf::SCAddEntity { entity_id, entity_type, pos_x, pos_y, pos_z, has_motion, speed_x, speed_y, speed_z } => GamePacketOf::SCAddEntity {
                entity_id,
                entity_type,
                pos_x,
                pos_y,
                pos_z,
                has_motion,
                speed_x,
                speed_y,
                speed_z,
            },
            GamePacketOf::SCRemoveEntity { entity_id } => GamePacketOf::SCRemoveEntity {
                entity_id,
            },
            GamePacketOf::SCAddItemEntity { entity_id, item_id, item_amount, item_data, pos_x, pos_y, pos_z, speed_x, speed_y, speed_z } => GamePacketOf::SCAddItemEntity {
                entity_id,
                item_id,
                item_amount,
                item_data,
                pos_x,
                pos_y,
                pos_z,
                speed_x,
                speed_y,
                speed_z,
            },
            GamePacketOf::SCTakeItemEntity { target, entity_id } => GamePacketOf::SCTakeItemEntity {
                target,
                entity_id,
            },
            GamePacketOf::SCMoveEntity { entity_id, pos_x, pos_y, pos_z } => GamePacketOf::SCMoveEntity {
                entity_id,
                pos_x,
                pos_y,
                pos_z,
            },
            GamePacketOf::SCMoveEntityWithRotation { entity_id, pos_x, pos_y, pos_z, rot_y, rot_x } => GamePacketOf::SCMoveEntityWithRotation {
                entity_id,
                pos_x,
                pos_y,
                pos_z,
                rot_y,
                rot_x,
            },
            GamePacketOf::MovePlayer { entity_id, pos_x, pos_y, pos_z, rot_y, rot_x } => GamePacketOf::MovePlayer {
                entity_id,
                pos_x,
                pos_y,
                pos_z,
                rot_y,
                rot_x,
            },
            GamePacketOf::PlaceBlock { entity_id, pos_x, pos_z, pos_y, block_id, block_aux, face } => GamePacketOf::PlaceBlock {
                entity_id,
                pos_x,
                pos_z,
                pos_y,
                block_id,
                block_aux,
                face,
            },
            GamePacketOf::RemoveBlock { entity_id, pos_x, pos_z, pos_y } => GamePacketOf::RemoveBlock {
                entity_id,
                pos_x,
                pos_z,
                pos_y,
            },
            GamePacketOf::SCUpdateBlock { pos_x, pos_z, pos_y, block_id, block_aux } => GamePacketOf::SCUpdateBlock {
                pos_x,
                pos_z,
                pos_y,
                block_id,
                block_aux,
            },
            GamePacketOf::SCAddPainting { entity_id, pos_x, pos_y, pos_z, direction, title } => GamePacketOf::SCAddPainting {
                entity_id,
                pos_x,
                pos_y,
                pos_z,
                direction,
                title: title@,
            },
            GamePacketOf::SCLevelEvent { event_id, pos_x, pos_y, pos_z, data } => GamePacketOf::SCLevelEvent {
                event_id,
                pos_x,
                pos_y,
                pos_z,
                data,
            },
            GamePacketOf::SCTileEvent { pos_x, pos_y, pos_z, case1, case2 } => GamePacketOf::SCTileEvent {
                pos_x,
                pos_y,
                pos_z,
                case1,
                case2,
            },
            GamePacketOf::EntityEvent { entity_id, event } => GamePacketOf::EntityEvent {
                entity_id,
                event,
            },
            GamePacketOf::CSRequestChunk { index_x, index_z } => GamePacketOf::CSRequestChunk {
                index_x,
                index_z,
            },
            GamePacketOf::SCChunkDataPacket { index_x, index_z, chunk_data } => GamePacketOf::SCChunkDataPacket {
                index_x,
                index_z,
                chunk_data,
            },
            GamePacketOf::PlayerArmorEquipment { entity_id, slot0, slot1, slot2, slot3 } => GamePacketOf::PlayerArmorEquipment {
                entity_id,
                slot0,
                slot1,
                slot2,
                slot3,
            },
            GamePacketOf::Interact { action, entity_id, target } => GamePacketOf::Interact {
                action,
                entity_id,
                target,
            },
            GamePacketOf::CSPlayerAction { action, pos_x, pos_y, pos_z, face, entity_id } => GamePacketOf::CSPlayerAction {
                action,
                pos_x,
                pos_y,
                pos_z,
                face,
                entity_id,
            },
            GamePacketOf::SCHurtArmor { health } => GamePacketOf::SCHurtArmor {
                health,
            },
            GamePacketOf::SCSetEntityData { entity_id, metadata } => GamePacketOf::SCSetEntityData {
                entity_id,
                metadata,
            },
            GamePacketOf::SCSetEntityMotion { entity_id, speed_x, speed_y, speed_z } => GamePacketOf::SCSetEntityMotion {
                entity_id,
                speed_x,
                speed_y,
                speed_z,
            },
            GamePacketOf::SCSetHealth { health } => GamePacketOf::SCSetHealth {
                health,
            },
            GamePacketOf::SCSetSpawnPosition { pos_x, pos_z, pos_y } => GamePacketOf::SCSetSpawnPosition {
                pos_x,
                pos_z,
                pos_y,
            },
            GamePacketOf::Animate { action, entity_id } => GamePacketOf::Animate {
                action,
                entity_id,
            },
            GamePacketOf::Respawn { entity_id, pos_x, pos_y, pos_z } => GamePacketOf::Respawn {
                entity_id,
                pos_x,
                pos_y,
                pos_z,
            },
            GamePacketOf::CSDropItem { entity_id, is_death, item_id, item_amount, item_data } => GamePacketOf::CSDropItem {
                entity_id,
                is_death,
                item_id,
                item_amount,
                item_data,
            },
            GamePacketOf::SCContainerOpen { window_id, window_type, slot, title } => GamePacketOf::SCContainerOpen {
                window_id,
                window_type,
                slot,
                title: title@,
            },
            GamePacketOf::ContainerClose { window_id } => GamePacketOf::ContainerClose {
                window_id,
            },
            GamePacketOf::SCContainerSetData { window_id, property, value } => GamePacketOf::SCContainerSetData {
                window_id,
                property,
                value,
            },
            GamePacketOf::CSChat { message } => GamePacketOf::CSChat {
                message: message@,
            },
            GamePacketOf::SignUpdate { pos_x, pos_y, pos_z, line_1, line_2, line_3, line_4 } => GamePacketOf::SignUpdate {
                pos_x,
                pos_y,
                pos_z,
                line_1: line_1@,
                line_2: line_2@,
                line_3: line_3@,
                line_4: line_4@,
            },
        }
    }
}

impl<S> GamePacketOf<S> {
    /// The id byte that leads the packet.
    pub open spec fn id(self) -> u8 {
        match self {
            GamePacketOf::CSPing { .. } => 0x00,
            GamePacketOf::SCPong { .. } => 0x03,
            GamePacketOf::CSClientConnect { .. } => 0x09,
            GamePacketOf::SCServerHandshake { .. } => 0x10,
            GamePacketOf::CSClientHandshake { .. } => 0x13,
            GamePacketOf::CSClientCancelConnect { .. } => 0x15,
            GamePacketOf::CSLogin { .. } => 0x82,
            GamePacketOf::SCLoginStatus { .. } => 0x83,
            GamePacketOf::CSReady { .. } => 0x84,
            GamePacketOf::SCMessage { .. } => 0x85,
            GamePacketOf::SCSetTime { .. } => 0x86,
            GamePacketOf::SCStartGame { .. } => 0x87,
            GamePacketOf::SCAddMob { .. } => 0x88,
            GamePacketOf::SCAddPlayer { .. } => 0x89,
            GamePacketOf::SCRemovePlayer { .. } => 0x8a,
            GamePacketOf::SCAddEntity { .. } => 0x8c,
            GamePacketOf::SCRemoveEntity { .. } => 0x8d,
            GamePacketOf::SCAddItemEntity { .. } => 0x8e,
            GamePacketOf::SCTakeItemEntity { .. } => 0x8f,
            GamePacketOf::SCMoveEntity { .. } => 0x90,
            GamePacketOf::SCMoveEntityWithRotation { .. } => 0x93,
            GamePacketOf::MovePlayer { .. } => 0x94,
            GamePacketOf::PlaceBlock { .. } => 0x95,
            GamePacketOf::RemoveBlock { .. } => 0x96,
            GamePacketOf::SCUpdateBlock { .. } => 0x97,
            GamePacketOf::SCAddPainting { .. } => 0x98,
            GamePacketOf::SCLevelEvent { .. } => 0x9a,
            GamePacketOf::SCTileEvent { .. } => 0x9b,
            GamePacketOf::EntityEvent { .. } => 0x9c,
            GamePacketOf::CSRequestChunk { .. } => 0x9d,
            GamePacketOf::SCChunkDataPacket { .. } => 0x9e,
            GamePacketOf::PlayerArmorEquipment { .. } => 0xa0,
            GamePacketOf::Interact { .. } => 0xa1,
            GamePacketOf::CSPlayerAction { .. } => 0xa3,
            GamePacketOf::SCHurtArmor { .. } => 0xa5,
            GamePacketOf::SCSetEntityData { .. } => 0xa6,
            GamePacketOf::SCSetEntityMotion { .. } => 0xa7,
            GamePacketOf::SCSetHealth { .. } => 0xa8,
            GamePacketOf::SCSetSpawnPosition { .. } => 0xa9,
            GamePacketOf::Animate { .. } => 0xaa,
            GamePacketOf::Respawn { .. } => 0xab,
            GamePacketOf::CSDropItem { .. } => 0xad,
            GamePacketOf::SCContainerOpen { .. } => 0xae,
            GamePacketOf::ContainerClose { .. } => 0xaf,
            GamePacketOf::SCContainerSetData { .. } => 0xb1,
            GamePacketOf::CSChat { .. } => 0xb4,
            GamePacketOf::SignUpdate { .. } => 0xb5,
        }
    }

    /// The fields that follow the id byte, in wire order.
    pub open spec fn fields(self) -> Seq<FieldOf<S>> {
        match self {
            GamePacketOf::CSPing { ping_id } => seq![
                FieldOf::Be64(ping_id),
            ],
            GamePacketOf::SCPong { ping_id, pong_id } => seq![
                FieldOf::Be64(ping_id),
                FieldOf::Be64(pong_id),
            ],
            GamePacketOf::CSClientConnect { client_id, session, unknown } => seq![
                FieldOf::Be64(client_id),
                FieldOf::Be64(session),
                FieldOf::Byte(unknown),
            ],
            GamePacketOf::SCServerHandshake { cookie: _, flags: _, server_port, data: _, unknown1: _, session, unknown2: _ } => seq![
                FieldOf::Fixed(Constant::HandshakeCookie),
                FieldOf::Fixed(Constant::HandshakeFlags),
                FieldOf::Be16(server_port),
                FieldOf::Fixed(Constant::HandshakeData),
                FieldOf::Fixed(Constant::HandshakeDoubleNull),
                FieldOf::Be64(session),
                FieldOf::Fixed(Constant::HandshakeUnknown),
            ],
            GamePacketOf::CSClientHandshake { dummy } => seq![
                FieldOf::Byte(dummy),
            ],
            GamePacketOf::CSClientCancelConnect {} => seq![],
            GamePacketOf::CSLogin { username, proto1, proto2 } => seq![
                FieldOf::StrBe(username),
                FieldOf::Be32(proto1),
                FieldOf::Be32(proto2),
            ],
            GamePacketOf::SCLoginStatus { status } => seq![
                FieldOf::Be32(status),
            ],
            GamePacketOf::CSReady { status } => seq![
                FieldOf::Byte(status),
            ],
            GamePacketOf::SCMessage { message } => seq![
                FieldOf::StrBe(message),
            ],
            GamePacketOf::SCSetTime { time } => seq![
                FieldOf::Be32(time),
            ],
            GamePacketOf::SCStartGame { seed, worldgen_version, gamemode, entity_id, pos_x, pos_y, pos_z } => seq![
                FieldOf::Be32(seed),
                FieldOf::Be32(worldgen_version),
                FieldOf::Be32(gamemode),
                FieldOf::Be32(entity_id),
                FieldOf::Be32(pos_x),
                FieldOf::Be32(pos_y),
                FieldOf::Be32(pos_z),
            ],
            GamePacketOf::SCAddMob { entity_id, entity_type, pos_x, pos_y, pos_z, rot_y, rot_x, metadata } => seq![
                FieldOf::Be32(entity_id),
                FieldOf::Be32(entity_type),
                FieldOf::Be32(pos_x),
                FieldOf::Be32(pos_y),
                FieldOf::Be32(pos_z),
                FieldOf::Be32(rot_y),
                FieldOf::Be32(rot_x),
                FieldOf::Byte(metadata),
            ],
            GamePacketOf::SCAddPlayer { client_id, username, entity_id, pos_x, pos_y, pos_z, rot_y, rot_x, held_item_id, held_item_aux, metadata } => seq![
                FieldOf::SignedBe32(client_id),
                FieldOf::StrBe(username),
                FieldOf::Be32(entity_id),
                FieldOf::Be32(pos_x),
                FieldOf::Be32(pos_y),
                FieldOf::Be32(pos_z),
                FieldOf::Byte(rot_y),
                FieldOf::Byte(rot_x),
                FieldOf::Be32(held_item_id),
                FieldOf::Be32(held_item_aux),
                FieldOf::Byte(metadata),
            ],
            GamePacketOf::SCRemovePlayer { entity_id, client_id } => seq![
                FieldOf::Be32(entity_id),
                FieldOf::SignedBe32(client_id),
            ],
            GamePacketOf::SCAddEntity { entity_id, entity_type, pos_x, pos_y, pos_z, has_motion, speed_x, speed_y, speed_z } => seq![
                FieldOf::Be32(entity_id),
                FieldOf::Byte(entity_type),
                FieldOf::Be32(pos_x),
                FieldOf::Be32(pos_y),
                FieldOf::Be32(pos_z),
                FieldOf::Be32(has_motion),
                FieldOf::Be32(speed_x),
                FieldOf::Be32(speed_y),
                FieldOf::Be32(speed_z),
            ],
            GamePacketOf::SCRemoveEntity { entity_id } => seq![
                FieldOf::Be32(entity_id),
            ],
            GamePacketOf::SCAddItemEntity { entity_id, item_id, item_amount, item_data, pos_x, pos_y, pos_z, speed_x, speed_y, speed_z } => seq![
                FieldOf::Be32(entity_id),
                FieldOf::Be16(item_id),
                FieldOf::Byte(item_amount),
                FieldOf::Be16(item_data),
                FieldOf::Be32(pos_x),
                FieldOf::Be32(pos_y),
                FieldOf::Be32(pos_z),
                FieldOf::SignedByte(speed_x),
                FieldOf::SignedByte(speed_y),
                FieldOf::SignedByte(speed_z),
            ],
            GamePacketOf::SCTakeItemEntity { target, entity_id } => seq![
                FieldOf::Be32(target),
                FieldOf::Be32(entity_id),
            ],
            GamePacketOf::SCMoveEntity { entity_id, pos_x, pos_y, pos_z } => seq![
                FieldOf::Be32(entity_id),
                FieldOf::Be32(pos_x),
                FieldOf::Be32(pos_y),
                FieldOf::Be32(pos_z),
            ],
            GamePacketOf::SCMoveEntityWithRotation { entity_id, pos_x, pos_y, pos_z, rot_y, rot_x } => seq![
                FieldOf::Be32(entity_id),
                FieldOf::Be32(pos_x),
                FieldOf::Be32(pos_y),
                FieldOf::Be32(pos_z),
                FieldOf::Be32(rot_y),
                FieldOf::Be32(rot_x),
            ],
            GamePacketOf::MovePlayer { entity_id, pos_x, pos_y, pos_z, rot_y, rot_x } => seq![
                FieldOf::Be32(entity_id),
                FieldOf::Be32(pos_x),
                FieldOf::Be32(pos_y),
                FieldOf::Be32(pos_z),
                FieldOf::Be32(rot_y),
                FieldOf::Be32(rot_x),
            ],
            GamePacketOf::PlaceBlock { entity_id, pos_x, pos_z, pos_y, block_id, block_aux, face } => seq![
                FieldOf::Be32(entity_id),
                FieldOf::Be32(pos_x),
                FieldOf::Be32(pos_z),
                FieldOf::Byte(pos_y),
                FieldOf::Byte(block_id),
                FieldOf::Byte(block_aux),
                FieldOf::Byte(face),
            ],
            GamePacketOf::RemoveBlock { entity_id, pos_x, pos_z, pos_y } => seq![
                FieldOf::Be32(entity_id),
                FieldOf::Be32(pos_x),
                FieldOf::Be32(pos_z),
                FieldOf::Byte(pos_y),
            ],
            GamePacketOf::SCUpdateBlock { pos_x, pos_z, pos_y, block_id, block_aux } => seq![
                FieldOf::Be32(pos_x),
                FieldOf::Be32(pos_z),
                FieldOf::Byte(pos_y),
                FieldOf::Byte(block_id),
                FieldOf::Byte(block_aux),
            ],
            GamePacketOf::SCAddPainting { entity_id, pos_x, pos_y, pos_z, direction, title } => seq![
                FieldOf::Be32(entity_id),
                FieldOf::Be32(pos_x),
                FieldOf::Be32(pos_y),
                FieldOf::Be32(pos_z),
                FieldOf::Be32(direction),
                FieldOf::StrBe(title),
            ],
            GamePacketOf::SCLevelEvent { event_id, pos_x, pos_y, pos_z, data } => seq![
                FieldOf::Be32(event_id),
                FieldOf::Be32(pos_x),
                FieldOf::Be32(pos_y),
                FieldOf::Be32(pos_z),
                FieldOf::Be32(data),
            ],
            GamePacketOf::SCTileEvent { pos_x, pos_y, pos_z, case1, case2 } => seq![
                FieldOf::Be32(pos_x),
                FieldOf::Be32(pos_y),
                FieldOf::Be32(pos_z),
                FieldOf::Be32(case1),
                FieldOf::Be32(case2),
            ],
            GamePacketOf::EntityEvent { entity_id, event } => seq![
                FieldOf::Be32(entity_id),
                FieldOf::Byte(event),
            ],
            GamePacketOf::CSRequestChunk { index_x, index_z } => seq![
                FieldOf::Be32(index_x),
                FieldOf::Be32(index_z),
            ],
            GamePacketOf::SCChunkDataPacket { index_x, index_z, chunk_data } => seq![
                FieldOf::Be32(index_x),
                FieldOf::Be32(index_z),
                FieldOf::Byte(chunk_data),
            ],
            GamePacketOf::PlayerArmorEquipment { entity_id, slot0, slot1, slot2, slot3 } => seq![
                FieldOf::Be32(entity_id),
                FieldOf::Byte(slot0),
                FieldOf::Byte(slot1),
                FieldOf::Byte(slot2),
                FieldOf::Byte(slot3),
            ],
            GamePacketOf::Interact { action, entity_id, target } => seq![
                FieldOf::Byte(action),
                FieldOf::Be32(entity_id),
                FieldOf::Be32(target),
            ],
            GamePacketOf::CSPlayerAction { action, pos_x, pos_y, pos_z, face, entity_id } => seq![
                FieldOf::Be32(action),
                FieldOf::Be32(pos_x),
                FieldOf::Be32(pos_y),
                FieldOf::Be32(pos_z),
                FieldOf::Be32(face),
                FieldOf::Be32(entity_id),
            ],
            GamePacketOf::SCHurtArmor { health } => seq![
                FieldOf::Byte(health),
            ],
            GamePacketOf::SCSetEntityData { entity_id, metadata } => seq![
                FieldOf::Be32(entity_id),
                FieldOf::Byte(metadata),
            ],
            GamePacketOf::SCSetEntityMotion { entity_id, speed_x, speed_y, speed_z } => seq![
                FieldOf::Be32(entity_id),
                FieldOf::Be32(speed_x),
                FieldOf::Be32(speed_y),
                FieldOf::Be32(speed_z),
            ],
            GamePacketOf::SCSetHealth { health } => seq![
                FieldOf::Byte(health),
            ],
            GamePacketOf::SCSetSpawnPosition { pos_x, pos_z, pos_y } => seq![
                FieldOf::Be32(pos_x),
                FieldOf::Be32(pos_z),
                FieldOf::Byte(pos_y),
            ],
            GamePacketOf::Animate { action, entity_id } => seq![
                FieldOf::Byte(action),
                FieldOf::Be32(entity_id),
            ],
            GamePacketOf::Respawn { entity_id, pos_x, pos_y, pos_z } => seq![
                FieldOf::Be32(entity_id),
                FieldOf::Be32(pos_x),
                FieldOf::Be32(pos_y),
                FieldOf::Be32(pos_z),
            ],
            GamePacketOf::CSDropItem { entity_id, is_death, item_id, item_amount, item_data } => seq![
                FieldOf::Be32(entity_id),
                FieldOf::Byte(is_death),
                FieldOf::Be16(item_id),
                FieldOf::Byte(item_amount),
                FieldOf::Be16(item_data),
            ],
            GamePacketOf::SCContainerOpen { window_id, window_type, slot, title } => seq![
                FieldOf::Byte(window_id),
                FieldOf::Byte(window_type),
                FieldOf::Byte(slot),
                FieldOf::StrBe(title),
            ],
            GamePacketOf::ContainerClose { window_id } => seq![
                FieldOf::Byte(window_id),
            ],
            GamePacketOf::SCContainerSetData { window_id, property, value } => seq![
                FieldOf::Byte(window_id),
                FieldOf::Be32(property),
                FieldOf::Be32(value),
            ],
            GamePacketOf::CSChat { message } => seq![
                FieldOf::StrBe(message),
            ],
            GamePacketOf::SignUpdate { pos_x, pos_y, pos_z, line_1, line_2, line_3, line_4 } => seq![
                FieldOf::Be16(pos_x),
                FieldOf::Byte(pos_y),
                FieldOf::Be16(pos_z),
                FieldOf::StrLe(line_1),
                FieldOf::StrLe(line_2),
                FieldOf::StrLe(line_3),
                FieldOf::StrLe(line_4),
            ],
        }
    }
}

/// The shapes of the fields of the packet with id `id`, if there is one.
pub open spec fn shape(id: u8) -> Option<Seq<FieldKind>> {
    if id == 0x00 {
        Some(seq![FieldKind::Be64])
    } else if id == 0x03 {
        Some(seq![FieldKind::Be64, FieldKind::Be64])
    } else if id == 0x09 {
        Some(seq![FieldKind::Be64, FieldKind::Be64, FieldKind::Byte])
    } else if id == 0x10 {
        Some(seq![FieldKind::Fixed(Constant::HandshakeCookie), FieldKind::Fixed(Constant::HandshakeFlags), FieldKind::Be16, FieldKind::Fixed(Constant::HandshakeData), FieldKind::Fixed(Constant::HandshakeDoubleNull), FieldKind::Be64, FieldKind::Fixed(Constant::HandshakeUnknown)])
    } else if id == 0x13 {
        Some(seq![FieldKind::Byte])
    } else if id == 0x15 {
        Some(seq![])
    } else if id == 0x82 {
        Some(seq![FieldKind::StrBe, FieldKind::Be32, FieldKind::Be32])
    } else if id == 0x83 {
        Some(seq![FieldKind::Be32])
    } else if id == 0x84 {
        Some(seq![FieldKind::Byte])
    } else if id == 0x85 {
        Some(seq![FieldKind::StrBe])
    } else if id == 0x86 {
        Some(seq![FieldKind::Be32])
    } else if id == 0x87 {
        Some(seq![FieldKind::Be32, FieldKind::Be32, FieldKind::Be32, FieldKind::Be32, FieldKind::Be32, FieldKind::Be32, FieldKind::Be32])
    } else if id == 0x88 {
        Some(seq![FieldKind::Be32, FieldKind::Be32, FieldKind::Be32, FieldKind::Be32, FieldKind::Be32, FieldKind::Be32, FieldKind::Be32, FieldKind::Byte])
    } else if id == 0x89 {
        Some(seq![FieldKind::SignedBe32, FieldKind::StrBe, FieldKind::Be32, FieldKind::Be32, FieldKind::Be32, FieldKind::Be32, FieldKind::Byte, FieldKind::Byte, FieldKind::Be32, FieldKind::Be32, FieldKind::Byte])
    } else if id == 0x8a {
        Some(seq![FieldKind::Be32, FieldKind::SignedBe32])
    } else if id == 0x8c {
        Some(seq![FieldKind::Be32, FieldKind::Byte, FieldKind::Be32, FieldKind::Be32, FieldKind::Be32, FieldKind::Be32, FieldKind::Be32, FieldKind::Be32, FieldKind::Be32])
    } else if id == 0x8d {
        Some(seq![FieldKind::Be32])
    } else if id == 0x8e {
        Some(seq![FieldKind::Be32, FieldKind::Be16, FieldKind::Byte, FieldKind::Be16, FieldKind::Be32, FieldKind::Be32, FieldKind::Be32, FieldKind::SignedByte, FieldKind::SignedByte, FieldKind::SignedByte])
    } else if id == 0x8f {
        Some(seq![FieldKind::Be32, FieldKind::Be32])
    } else if id == 0x90 {
        Some(seq![FieldKind::Be32, FieldKind::Be32, FieldKind::Be32, FieldKind::Be32])
    } else if id == 0x93 {
        Some(seq![FieldKind::Be32, FieldKind::Be32, FieldKind::Be32, FieldKind::Be32, FieldKind::Be32, FieldKind::Be32])
    } else if id == 0x94 {
        Some(seq![FieldKind::Be32, FieldKind::Be32, FieldKind::Be32, FieldKind::Be32, FieldKind::Be32, FieldKind::Be32])
    } else if id == 0x95 {
        Some(seq![FieldKind::Be32, FieldKind::Be32, FieldKind::Be32, FieldKind::Byte, FieldKind::Byte, FieldKind::Byte, FieldKind::Byte])
    } else if id == 0x96 {
        Some(seq![FieldKind::Be32, FieldKind::Be32, FieldKind::Be32, FieldKind::Byte])
    } else if id == 0x97 {
        Some(seq![FieldKind::Be32, FieldKind::Be32, FieldKind::Byte, FieldKind::Byte, FieldKind::Byte])
    } else if id == 0x98 {
        Some(seq![FieldKind::Be32, FieldKind::Be32, FieldKind::Be32, FieldKind::Be32, FieldKind::Be32, FieldKind::StrBe])
    } else if id == 0x9a {
        Some(seq![FieldKind::Be32, FieldKind::Be32, FieldKind::Be32, FieldKind::Be32, FieldKind::Be32])
    } else if id == 0x9b {
        Some(seq![FieldKind::Be32, FieldKind::Be32, FieldKind::Be32, FieldKind::Be32, FieldKind::Be32])
    } else if id == 0x9c {
        Some(seq![FieldKind::Be32, FieldKind::Byte])
    } else if id == 0x9d {
        Some(seq![FieldKind::Be32, FieldKind::Be32])
    } else if id == 0x9e {
        Some(seq![FieldKind::Be32, FieldKind::Be32, FieldKind::Byte])
    } else if id == 0xa0 {
        Some(seq![FieldKind::Be32, FieldKind::Byte, FieldKind::Byte, FieldKind::Byte, FieldKind::Byte])
    } else if id == 0xa1 {
        Some(seq![FieldKind::Byte, FieldKind::Be32, FieldKind::Be32])
    } else if id == 0xa3 {
        Some(seq![FieldKind::Be32, FieldKind::Be32, FieldKind::Be32, FieldKind::Be32, FieldKind::Be32, FieldKind::Be32])
    } else if id == 0xa5 {
        Some(seq![FieldKind::Byte])
    } else if id == 0xa6 {
        Some(seq![FieldKind::Be32, FieldKind::Byte])
    } else if id == 0xa7 {
        Some(seq![FieldKind::Be32, FieldKind::Be32, FieldKind::Be32, FieldKind::Be32])
    } else if id == 0xa8 {
        Some(seq![FieldKind::Byte])
    } else if id == 0xa9 {
        Some(seq![FieldKind::Be32, FieldKind::Be32, FieldKind::Byte])
    } else if id == 0xaa {
        Some(seq![FieldKind::Byte, FieldKind::Be32])
    } else if id == 0xab {
        Some(seq![FieldKind::Be32, FieldKind::Be32, FieldKind::Be32, FieldKind::Be32])
    } else if id == 0xad {
        Some(seq![FieldKind::Be32, FieldKind::Byte, FieldKind::Be16, FieldKind::Byte, FieldKind::Be16])
    } else if id == 0xae {
        Some(seq![FieldKind::Byte, FieldKind::Byte, FieldKind::Byte, FieldKind::StrBe])
    } else if id == 0xaf {
        Some(seq![FieldKind::Byte])
    } else if id == 0xb1 {
        Some(seq![FieldKind::Byte, FieldKind::Be32, FieldKind::Be32])
    } else if id == 0xb4 {
        Some(seq![FieldKind::StrBe])
    } else if id == 0xb5 {
        Some(seq![FieldKind::Be16, FieldKind::Byte, FieldKind::Be16, FieldKind::StrLe, FieldKind::StrLe, FieldKind::StrLe, FieldKind::StrLe])
    } else {
        None
    }
}

/// The packet with id `id` made of the fields `fs`.
pub open spec fn build<S>(id: u8, fs: Seq<FieldOf<S>>) -> GamePacketOf<S>
    recommends
        shape(id) == Some(kinds_of(fs)),
{
    if id == 0x00 {
        GamePacketOf::CSPing {
            ping_id: fs[0]->Be64_0,
        }
    } else if id == 0x03 {
        GamePacketOf::SCPong {
            ping_id: fs[0]->Be64_0,
            pong_id: fs[1]->Be64_0,
        }
    } else if id == 0x09 {
        GamePacketOf::CSClientConnect {
            client_id: fs[0]->Be64_0,
            session: fs[1]->Be64_0,
            unknown: fs[2]->Byte_0,
        }
    } else if id == 0x10 {
        GamePacketOf::SCServerHandshake {
            cookie: HandshakeCookie,
            flags: HandshakeFlags,
            server_port: fs[2]->Be16_0,
            data: HandshakeData,
            unknown1: HandshakeDoubleNull,
            session: fs[5]->Be64_0,
            unknown2: HandshakeUnknown,
        }
    } else if id == 0x13 {
        GamePacketOf::CSClientHandshake {
            dummy: fs[0]->Byte_0,
        }
    } else if id == 0x15 {
        GamePacketOf::CSClientCancelConnect {}
    } else if id == 0x82 {
        GamePacketOf::CSLogin {
            username: fs[0]->StrBe_0,
            proto1: fs[1]->Be32_0,
            proto2: fs[2]->Be32_0,
        }
    } else if id == 0x83 {
        GamePacketOf::SCLoginStatus {
            status: fs[0]->Be32_0,
        }
    } else if id == 0x84 {
        GamePacketOf::CSReady {
            status: fs[0]->Byte_0,
        }
    } else if id == 0x85 {
        GamePacketOf::SCMessage {
            message: fs[0]->StrBe_0,
        }
    } else if id == 0x86 {
        GamePacketOf::SCSetTime {
            time: fs[0]->Be32_0,
        }
    } else if id == 0x87 {
        GamePacketOf::SCStartGame {
            seed: fs[0]->Be32_0,
            worldgen_version: fs[1]->Be32_0,
            gamemode: fs[2]->Be32_0,
            entity_id: fs[3]->Be32_0,
            pos_x: fs[4]->Be32_0,
            pos_y: fs[5]->Be32_0,
            pos_z: fs[6]->Be32_0,
        }
    } else if id == 0x88 {
        GamePacketOf::SCAddMob {
            entity_id: fs[0]->Be32_0,
            entity_type: fs[1]->Be32_0,
            pos_x: fs[2]->Be32_0,
            pos_y: fs[3]->Be32_0,
            pos_z: fs[4]->Be32_0,
            rot_y: fs[5]->Be32_0,
            rot_x: fs[6]->Be32_0,
            metadata: fs[7]->Byte_0,
        }
    } else if id == 0x89 {
        GamePacketOf::SCAddPlayer {
            client_id: fs[0]->SignedBe32_0,
            username: fs[1]->StrBe_0,
            entity_id: fs[2]->Be32_0,
            pos_x: fs[3]->Be32_0,
            pos_y: fs[4]->Be32_0,
            pos_z: fs[5]->Be32_0,
            rot_y: fs[6]->Byte_0,
            rot_x: fs[7]->Byte_0,
            held_item_id: fs[8]->Be32_0,
            held_item_aux: fs[9]->Be32_0,
            metadata: fs[10]->Byte_0,
        }
    } else if id == 0x8a {
        GamePacketOf::SCRemovePlayer {
            entity_id: fs[0]->Be32_0,
            client_id: fs[1]->SignedBe32_0,
        }
    } else if id == 0x8c {
        GamePacketOf::SCAddEntity {
            entity_id: fs[0]->Be32_0,
            entity_type: fs[1]->Byte_0,
            pos_x: fs[2]->Be32_0,
            pos_y: fs[3]->Be32_0,
            pos_z: fs[4]->Be32_0,
            has_motion: fs[5]->Be32_0,
            speed_x: fs[6]->Be32_0,
            speed_y: fs[7]->Be32_0,
            speed_z: fs[8]->Be32_0,
        }
    } else if id == 0x8d {
        GamePacketOf::SCRemoveEntity {
            entity_id: fs[0]->Be32_0,
        }
    } else if id == 0x8e {
        GamePacketOf::SCAddItemEntity {
            entity_id: fs[0]->Be32_0,
            item_id: fs[1]->Be16_0,
            item_amount: fs[2]->Byte_0,
            item_data: fs[3]->Be16_0,
            pos_x: fs[4]->Be32_0,
            pos_y: fs[5]->Be32_0,
            pos_z: fs[6]->Be32_0,
            speed_x: fs[7]->SignedByte_0,
            speed_y: fs[8]->SignedByte_0,
            speed_z: fs[9]->SignedByte_0,
        }
    } else if id == 0x8f {
        GamePacketOf::SCTakeItemEntity {
            target: fs[0]->Be32_0,
            entity_id: fs[1]->Be32_0,
        }
    } else if id == 0x90 {
        GamePacketOf::SCMoveEntity {
            entity_id: fs[0]->Be32_0,
            pos_x: fs[1]->Be32_0,
            pos_y: fs[2]->Be32_0,
            pos_z: fs[3]->Be32_0,
        }
    } else if id == 0x93 {
        GamePacketOf::SCMoveEntityWithRotation {
            entity_id: fs[0]->Be32_0,
            pos_x: fs[1]->Be32_0,
            pos_y: fs[2]->Be32_0,
            pos_z: fs[3]->Be32_0,
            rot_y: fs[4]->Be32_0,
            rot_x: fs[5]->Be32_0,
        }
    } else if id == 0x94 {
        GamePacketOf::MovePlayer {
            entity_id: fs[0]->Be32_0,
            pos_x: fs[1]->Be32_0,
            pos_y: fs[2]->Be32_0,
            pos_z: fs[3]->Be32_0,
            rot_y: fs[4]->Be32_0,
            rot_x: fs[5]->Be32_0,
        }
    } else if id == 0x95 {
        GamePacketOf::PlaceBlock {
            entity_id: fs[0]->Be32_0,
            pos_x: fs[1]->Be32_0,
            pos_z: fs[2]->Be32_0,
            pos_y: fs[3]->Byte_0,
            block_id: fs[4]->Byte_0,
            block_aux: fs[5]->Byte_0,
            face: fs[6]->Byte_0,
        }
    } else if id == 0x96 {
        GamePacketOf::RemoveBlock {
            entity_id: fs[0]->Be32_0,
            pos_x: fs[1]->Be32_0,
            pos_z: fs[2]->Be32_0,
            pos_y: fs[3]->Byte_0,
        }
    } else if id == 0x97 {
        GamePacketOf::SCUpdateBlock {
            pos_x: fs[0]->Be32_0,
            pos_z: fs[1]->Be32_0,
            pos_y: fs[2]->Byte_0,
            block_id: fs[3]->Byte_0,
            block_aux: fs[4]->Byte_0,
        }
    } else if id == 0x98 {
        GamePacketOf::SCAddPainting {
            entity_id: fs[0]->Be32_0,
            pos_x: fs[1]->Be32_0,
            pos_y: fs[2]->Be32_0,
            pos_z: fs[3]->Be32_0,
            direction: fs[4]->Be32_0,
            title: fs[5]->StrBe_0,
        }
    } else if id == 0x9a {
        GamePacketOf::SCLevelEvent {
            event_id: fs[0]->Be32_0,
            pos_x: fs[1]->Be32_0,
            pos_y: fs[2]->Be32_0,
            pos_z: fs[3]->Be32_0,
            data: fs[4]->Be32_0,
        }
    } else if id == 0x9b {
        GamePacketOf::SCTileEvent {
            pos_x: fs[0]->Be32_0,
            pos_y: fs[1]->Be32_0,
            pos_z: fs[2]->Be32_0,
            case1: fs[3]->Be32_0,
            case2: fs[4]->Be32_0,
        }
    } else if id == 0x9c {
        GamePacketOf::EntityEvent {
            entity_id: fs[0]->Be32_0,
            event: fs[1]->Byte_0,
        }
    } else if id == 0x9d {
        GamePacketOf::CSRequestChunk {
            index_x: fs[0]->Be32_0,
            index_z: fs[1]->Be32_0,
        }
    } else if id == 0x9e {
        GamePacketOf::SCChunkDataPacket {
            index_x: fs[0]->Be32_0,
            index_z: fs[1]->Be32_0,
            chunk_data: fs[2]->Byte_0,
        }
    } else if id == 0xa0 {
        GamePacketOf::PlayerArmorEquipment {
            entity_id: fs[0]->Be32_0,
            slot0: fs[1]->Byte_0,
            slot1: fs[2]->Byte_0,
            slot2: fs[3]->Byte_0,
            slot3: fs[4]->Byte_0,
        }
    } else if id == 0xa1 {
        GamePacketOf::Interact {
            action: fs[0]->Byte_0,
            entity_id: fs[1]->Be32_0,
            target: fs[2]->Be32_0,
        }
    } else if id == 0xa3 {
        GamePacketOf::CSPlayerAction {
            action: fs[0]->Be32_0,
            pos_x: fs[1]->Be32_0,
            pos_y: fs[2]->Be32_0,
            pos_z: fs[3]->Be32_0,
            face: fs[4]->Be32_0,
            entity_id: fs[5]->Be32_0,
        }
    } else if id == 0xa5 {
        GamePacketOf::SCHurtArmor {
            health: fs[0]->Byte_0,
        }
    } else if id == 0xa6 {
        GamePacketOf::SCSetEntityData {
            entity_id: fs[0]->Be32_0,
            metadata: fs[1]->Byte_0,
        }
    } else if id == 0xa7 {
        GamePacketOf::SCSetEntityMotion {
            entity_id: fs[0]->Be32_0,
            speed_x: fs[1]->Be32_0,
            speed_y: fs[2]->Be32_0,
            speed_z: fs[3]->Be32_0,
        }
    } else if id == 0xa8 {
        GamePacketOf::SCSetHealth {
            health: fs[0]->Byte_0,
        }
    } else if id == 0xa9 {
        GamePacketOf::SCSetSpawnPosition {
            pos_x: fs[0]->Be32_0,
            pos_z: fs[1]->Be32_0,
            pos_y: fs[2]->Byte_0,
        }
    } else if id == 0xaa {
        GamePacketOf::Animate {
            action: fs[0]->Byte_0,
            entity_id: fs[1]->Be32_0,
        }
    } else if id == 0xab {
        GamePacketOf::Respawn {
            entity_id: fs[0]->Be32_0,
            pos_x: fs[1]->Be32_0,
            pos_y: fs[2]->Be32_0,
            pos_z: fs[3]->Be32_0,
        }
    } else if id == 0xad {
        GamePacketOf::CSDropItem {
            entity_id: fs[0]->Be32_0,
            is_death: fs[1]->Byte_0,
            item_id: fs[2]->Be16_0,
            item_amount: fs[3]->Byte_0,
            item_data: fs[4]->Be16_0,
        }
    } else if id == 0xae {
        GamePacketOf::SCContainerOpen {
            window_id: fs[0]->Byte_0,
            window_type: fs[1]->Byte_0,
            slot: fs[2]->Byte_0,
            title: fs[3]->StrBe_0,
        }
    } else if id == 0xaf {
        GamePacketOf::ContainerClose {
            window_id: fs[0]->Byte_0,
        }
    } else if id == 0xb1 {
        GamePacketOf::SCContainerSetData {
            window_id: fs[0]->Byte_0,
            property: fs[1]->Be32_0,
            value: fs[2]->Be32_0,
        }
    } else if id == 0xb4 {
        GamePacketOf::CSChat {
            message: fs[0]->StrBe_0,
        }
    } else if id == 0xb5 {
        GamePacketOf::SignUpdate {
            pos_x: fs[0]->Be16_0,
            pos_y: fs[1]->Byte_0,
            pos_z: fs[2]->Be16_0,
            line_1: fs[3]->StrLe_0,
            line_2: fs[4]->StrLe_0,
            line_3: fs[5]->StrLe_0,
            line_4: fs[6]->StrLe_0,
        }
    } else {
        GamePacketOf::CSClientCancelConnect {}
    }
}

/// The bytes of a game packet: its id, then its fields.
pub open spec fn game_bytes(p: GamePacketView) -> Seq<u8> {
    seq![p.id()] + fields_bytes(p.fields())
}

/// Reads a game packet from the start of `b`: the packet and the number of
/// bytes it took. Bytes after it are left unread.
pub open spec fn parse_game(b: Seq<u8>) -> Result<(GamePacketView, int), DecodeError> {
    if b.len() == 0 {
        Err(DecodeError::UnexpectedEnd)
    } else {
        match shape(b[0]) {
            None => Err(DecodeError::UnknownId(b[0])),
            Some(ks) => match parse_fields(ks, b, 1) {
                Ok((fs, p)) => Ok((build(b[0], fs), p)),
                Err(e) => Err(e),
            },
        }
    }
}

impl GamePacketOf<Seq<char>> {
    /// Every string of the packet fits its 16-bit byte count.
    pub open spec fn wf(self) -> bool {
        fields_wf(self.fields())
    }
}

/// The shapes of a packet's fields are those its id prescribes, and the
/// packet is made again from its fields.
pub proof fn lemma_shape_and_build(p: GamePacketView)
    ensures
        shape(p.id()) == Some(kinds_of(p.fields())),
        build(p.id(), p.fields()) == p,
{
    match p {
        GamePacketOf::CSPing { .. } => {
            assert(kinds_of(p.fields()) =~= seq![FieldKind::Be64]);
        },
        GamePacketOf::SCPong { .. } => {
            assert(kinds_of(p.fields()) =~= seq![FieldKind::Be64, FieldKind::Be64]);
        },
        GamePacketOf::CSClientConnect { .. } => {
            assert(kinds_of(p.fields()) =~= seq![FieldKind::Be64, FieldKind::Be64, FieldKind::Byte]);
        },
        GamePacketOf::SCServerHandshake { .. } => {
            assert(kinds_of(p.fields()) =~= seq![FieldKind::Fixed(Constant::HandshakeCookie), FieldKind::Fixed(Constant::HandshakeFlags), FieldKind::Be16, FieldKind::Fixed(Constant::HandshakeData), FieldKind::Fixed(Constant::HandshakeDoubleNull), FieldKind::Be64, FieldKind::Fixed(Constant::HandshakeUnknown)]);
        },
        GamePacketOf::CSClientHandshake { .. } => {
            assert(kinds_of(p.fields()) =~= seq![FieldKind::Byte]);
        },
        GamePacketOf::CSClientCancelConnect { .. } => {
            assert(kinds_of(p.fields()) =~= seq![]);
        },
        GamePacketOf::CSLogin { .. } => {
            assert(kinds_of(p.fields()) =~= seq![FieldKind::StrBe, FieldKind::Be32, FieldKind::Be32]);
        },
        GamePacketOf::SCLoginStatus { .. } => {
            assert(kinds_of(p.fields()) =~= seq![FieldKind::Be32]);
        },
        GamePacketOf::CSReady { .. } => {
            assert(kinds_of(p.fields()) =~= seq![FieldKind::Byte]);
        },
        GamePacketOf::SCMessage { .. } => {
            assert(kinds_of(p.fields()) =~= seq![FieldKind::StrBe]);
        },
        GamePacketOf::SCSetTime { .. } => {
            assert(kinds_of(p.fields()) =~= seq![FieldKind::Be32]);
        },
        GamePacketOf::SCStartGame { .. } => {
            assert(kinds_of(p.fields()) =~= seq![FieldKind::Be32, FieldKind::Be32, FieldKind::Be32, FieldKind::Be32, FieldKind::Be32, FieldKind::Be32, FieldKind::Be32]);
        },
        GamePacketOf::SCAddMob { .. } => {
            assert(kinds_of(p.fields()) =~= seq![FieldKind::Be32, FieldKind::Be32, FieldKind::Be32, FieldKind::Be32, FieldKind::Be32, FieldKind::Be32, FieldKind::Be32, FieldKind::Byte]);
        },
        GamePacketOf::SCAddPlayer { .. } => {
            assert(kinds_of(p.fields()) =~= seq![FieldKind::SignedBe32, FieldKind::StrBe, FieldKind::Be32, FieldKind::Be32, FieldKind::Be32, FieldKind::Be32, FieldKind::Byte, FieldKind::Byte, FieldKind::Be32, FieldKind::Be32, FieldKind::Byte]);
        },
        GamePacketOf::SCRemovePlayer { .. } => {
            assert(kinds_of(p.fields()) =~= seq![FieldKind::Be32, FieldKind::SignedBe32]);
        },
        GamePacketOf::SCAddEntity { .. } => {
            assert(kinds_of(p.fields()) =~= seq![FieldKind::Be32, FieldKind::Byte, FieldKind::Be32, FieldKind::Be32, FieldKind::Be32, FieldKind::Be32, FieldKind::Be32, FieldKind::Be32, FieldKind::Be32]);
        },
        GamePacketOf::SCRemoveEntity { .. } => {
            assert(kinds_of(p.fields()) =~= seq![FieldKind::Be32]);
        },
        GamePacketOf::SCAddItemEntity { .. } => {
            assert(kinds_of(p.fields()) =~= seq![FieldKind::Be32, FieldKind::Be16, FieldKind::Byte, FieldKind::Be16, FieldKind::Be32, FieldKind::Be32, FieldKind::Be32, FieldKind::SignedByte, FieldKind::SignedByte, FieldKind::SignedByte]);
        },
        GamePacketOf::SCTakeItemEntity { .. } => {
            assert(kinds_of(p.fields()) =~= seq![FieldKind::Be32, FieldKind::Be32]);
        },
        GamePacketOf::SCMoveEntity { .. } => {
            assert(kinds_of(p.fields()) =~= seq![FieldKind::Be32, FieldKind::Be32, FieldKind::Be32, FieldKind::Be32]);
        },
        GamePacketOf::SCMoveEntityWithRotation { .. } => {
            assert(kinds_of(p.fields()) =~= seq![FieldKind::Be32, FieldKind::Be32, FieldKind::Be32, FieldKind::Be32, FieldKind::Be32, FieldKind::Be32]);
        },
        GamePacketOf::MovePlayer { .. } => {
            assert(kinds_of(p.fields()) =~= seq![FieldKind::Be32, FieldKind::Be32, FieldKind::Be32, FieldKind::Be32, FieldKind::Be32, FieldKind::Be32]);
        },
        GamePacketOf::PlaceBlock { .. } => {
            assert(kinds_of(p.fields()) =~= seq![FieldKind::Be32, FieldKind::Be32, FieldKind::Be32, FieldKind::Byte, FieldKind::Byte, FieldKind::Byte, FieldKind::Byte]);
        },
        GamePacketOf::RemoveBlock { .. } => {
            assert(kinds_of(p.fields()) =~= seq![FieldKind::Be32, FieldKind::Be32, FieldKind::Be32, FieldKind::Byte]);
        },
        GamePacketOf::SCUpdateBlock { .. } => {
            assert(kinds_of(p.fields()) =~= seq![FieldKind::Be32, FieldKind::Be32, FieldKind::Byte, FieldKind::Byte, FieldKind::Byte]);
        },
        GamePacketOf::SCAddPainting { .. } => {
            assert(kinds_of(p.fields()) =~= seq![FieldKind::Be32, FieldKind::Be32, FieldKind::Be32, FieldKind::Be32, FieldKind::Be32, FieldKind::StrBe]);
        },
        GamePacketOf::SCLevelEvent { .. } => {
            assert(kinds_of(p.fields()) =~= seq![FieldKind::Be32, FieldKind::Be32, FieldKind::Be32, FieldKind::Be32, FieldKind::Be32]);
        },
        GamePacketOf::SCTileEvent { .. } => {
            assert(kinds_of(p.fields()) =~= seq![FieldKind::Be32, FieldKind::Be32, FieldKind::Be32, FieldKind::Be32, FieldKind::Be32]);
        },
        GamePacketOf::EntityEvent { .. } => {
            assert(kinds_of(p.fields()) =~= seq![FieldKind::Be32, FieldKind::Byte]);
        },
        GamePacketOf::CSRequestChunk { .. } => {
            assert(kinds_of(p.fields()) =~= seq![FieldKind::Be32, FieldKind::Be32]);
        },
        GamePacketOf::SCChunkDataPacket { .. } => {
            assert(kinds_of(p.fields()) =~= seq![FieldKind::Be32, FieldKind::Be32, FieldKind::Byte]);
        },
        GamePacketOf::PlayerArmorEquipment { .. } => {
            assert(kinds_of(p.fields()) =~= seq![FieldKind::Be32, FieldKind::Byte, FieldKind::Byte, FieldKind::Byte, FieldKind::Byte]);
        },
        GamePacketOf::Interact { .. } => {
            assert(kinds_of(p.fields()) =~= seq![FieldKind::Byte, FieldKind::Be32, FieldKind::Be32]);
        },
        GamePacketOf::CSPlayerAction { .. } => {
            assert(kinds_of(p.fields()) =~= seq![FieldKind::Be32, FieldKind::Be32, FieldKind::Be32, FieldKind::Be32, FieldKind::Be32, FieldKind::Be32]);
        },
        GamePacketOf::SCHurtArmor { .. } => {
            assert(kinds_of(p.fields()) =~= seq![FieldKind::Byte]);
        },
        GamePacketOf::SCSetEntityData { .. } => {
            assert(kinds_of(p.fields()) =~= seq![FieldKind::Be32, FieldKind::Byte]);
        },
        GamePacketOf::SCSetEntityMotion { .. } => {
            assert(kinds_of(p.fields()) =~= seq![FieldKind::Be32, FieldKind::Be32, FieldKind::Be32, FieldKind::Be32]);
        },
        GamePacketOf::SCSetHealth { .. } => {
            assert(kinds_of(p.fields()) =~= seq![FieldKind::Byte]);
        },
        GamePacketOf::SCSetSpawnPosition { .. } => {
            assert(kinds_of(p.fields()) =~= seq![FieldKind::Be32, FieldKind::Be32, FieldKind::Byte]);
        },
        GamePacketOf::Animate { .. } => {
            assert(kinds_of(p.fields()) =~= seq![FieldKind::Byte, FieldKind::Be32]);
        },
        GamePacketOf::Respawn { .. } => {
            assert(kinds_of(p.fields()) =~= seq![FieldKind::Be32, FieldKind::Be32, FieldKind::Be32, FieldKind::Be32]);
        },
        GamePacketOf::CSDropItem { .. } => {
            assert(kinds_of(p.fields()) =~= seq![FieldKind::Be32, FieldKind::Byte, FieldKind::Be16, FieldKind::Byte, FieldKind::Be16]);
        },
        GamePacketOf::SCContainerOpen { .. } => {
            assert(kinds_of(p.fields()) =~= seq![FieldKind::Byte, FieldKind::Byte, FieldKind::Byte, FieldKind::StrBe]);
        },
        GamePacketOf::ContainerClose { .. } => {
            assert(kinds_of(p.fields()) =~= seq![FieldKind::Byte]);
        },
        GamePacketOf::SCContainerSetData { .. } => {
            assert(kinds_of(p.fields()) =~= seq![FieldKind::Byte, FieldKind::Be32, FieldKind::Be32]);
        },
        GamePacketOf::CSChat { .. } => {
            assert(kinds_of(p.fields()) =~= seq![FieldKind::StrBe]);
        },
        GamePacketOf::SignUpdate { .. } => {
            assert(kinds_of(p.fields()) =~= seq![FieldKind::Be16, FieldKind::Byte, FieldKind::Be16, FieldKind::StrLe, FieldKind::StrLe, FieldKind::StrLe, FieldKind::StrLe]);
        },
    }
}

/// Decoding the bytes of a well-formed game packet, whatever follows them,
/// gives the packet back and takes exactly its bytes.
pub proof fn lemma_game_round_trip(p: GamePacketView, rest: Seq<u8>)
    requires
        p.wf(),
    ensures
        parse_game(game_bytes(p) + rest) == Ok::<(GamePacketView, int), DecodeError>(
            (p, game_bytes(p).len() as int),
        ),
{
    let b = game_bytes(p) + rest;
    let fb = fields_bytes(p.fields());
    lemma_shape_and_build(p);
    assert(b[0] == p.id());
    assert(b.subrange(1, 1 + fb.len() as int) =~= fb);
    lemma_fields_round_trip(p.fields(), b, 1);
}

impl GamePacketOf<String> {
    /// The id byte that leads the packet.
    pub fn packet_id(&self) -> (r: u8)
        ensures
            r == self@.id(),
    {
        match self {
            GamePacketOf::CSPing { .. } => 0x00,
            GamePacketOf::SCPong { .. } => 0x03,
            GamePacketOf::CSClientConnect { .. } => 0x09,
            GamePacketOf::SCServerHandshake { .. } => 0x10,
            GamePacketOf::CSClientHandshake { .. } => 0x13,
            GamePacketOf::CSClientCancelConnect { .. } => 0x15,
            GamePacketOf::CSLogin { .. } => 0x82,
            GamePacketOf::SCLoginStatus { .. } => 0x83,
            GamePacketOf::CSReady { .. } => 0x84,
            GamePacketOf::SCMessage { .. } => 0x85,
            GamePacketOf::SCSetTime { .. } => 0x86,
            GamePacketOf::SCStartGame { .. } => 0x87,
            GamePacketOf::SCAddMob { .. } => 0x88,
            GamePacketOf::SCAddPlayer { .. } => 0x89,
            GamePacketOf::SCRemovePlayer { .. } => 0x8a,
            GamePacketOf::SCAddEntity { .. } => 0x8c,
            GamePacketOf::SCRemoveEntity { .. } => 0x8d,
            GamePacketOf::SCAddItemEntity { .. } => 0x8e,
            GamePacketOf::SCTakeItemEntity { .. } => 0x8f,
            GamePacketOf::SCMoveEntity { .. } => 0x90,
            GamePacketOf::SCMoveEntityWithRotation { .. } => 0x93,
            GamePacketOf::MovePlayer { .. } => 0x94,
            GamePacketOf::PlaceBlock { .. } => 0x95,
            GamePacketOf::RemoveBlock { .. } => 0x96,
            GamePacketOf::SCUpdateBlock { .. } => 0x97,
            GamePacketOf::SCAddPainting { .. } => 0x98,
            GamePacketOf::SCLevelEvent { .. } => 0x9a,
            GamePacketOf::SCTileEvent { .. } => 0x9b,
            GamePacketOf::EntityEvent { .. } => 0x9c,
            GamePacketOf::CSRequestChunk { .. } => 0x9d,
            GamePacketOf::SCChunkDataPacket { .. } => 0x9e,
            GamePacketOf::PlayerArmorEquipment { .. } => 0xa0,
            GamePacketOf::Interact { .. } => 0xa1,
            GamePacketOf::CSPlayerAction { .. } => 0xa3,
            GamePacketOf::SCHurtArmor { .. } => 0xa5,
            GamePacketOf::SCSetEntityData { .. } => 0xa6,
            GamePacketOf::SCSetEntityMotion { .. } => 0xa7,
            GamePacketOf::SCSetHealth { .. } => 0xa8,
            GamePacketOf::SCSetSpawnPosition { .. } => 0xa9,
            GamePacketOf::Animate { .. } => 0xaa,
            GamePacketOf::Respawn { .. } => 0xab,
            GamePacketOf::CSDropItem { .. } => 0xad,
            GamePacketOf::SCContainerOpen { .. } => 0xae,
            GamePacketOf::ContainerClose { .. } => 0xaf,
            GamePacketOf::SCContainerSetData { .. } => 0xb1,
            GamePacketOf::CSChat { .. } => 0xb4,
            GamePacketOf::SignUpdate { .. } => 0xb5,
        }
    }

    /// The fields that follow the id byte, in wire order.
    pub fn to_fields(&self) -> (r: Vec<Field>)
        ensures
            fields_view(r@) == self@.fields(),
    {
        let r: Vec<Field> = match self {
            GamePacketOf::CSPing { ping_id } => vec![
                FieldOf::Be64(*ping_id),
            ],
            GamePacketOf::SCPong { ping_id, pong_id } => vec![
                FieldOf::Be64(*ping_id),
                FieldOf::Be64(*pong_id),
            ],
            GamePacketOf::CSClientConnect { client_id, session, unknown } => vec![
                FieldOf::Be64(*client_id),
                FieldOf::Be64(*session),
                FieldOf::Byte(*unknown),
            ],
            GamePacketOf::SCServerHandshake { cookie: _, flags: _, server_port, data: _, unknown1: _, session, unknown2: _ } => vec![
                FieldOf::Fixed(Constant::HandshakeCookie),
                FieldOf::Fixed(Constant::HandshakeFlags),
                FieldOf::Be16(*server_port),
                FieldOf::Fixed(Constant::HandshakeData),
                FieldOf::Fixed(Constant::HandshakeDoubleNull),
                FieldOf::Be64(*session),
                FieldOf::Fixed(Constant::HandshakeUnknown),
            ],
            GamePacketOf::CSClientHandshake { dummy } => vec![
                FieldOf::Byte(*dummy),
            ],
            GamePacketOf::CSClientCancelConnect {} => Vec::new(),
            GamePacketOf::CSLogin { username, proto1, proto2 } => vec![
                FieldOf::StrBe(username.clone()),
                FieldOf::Be32(*proto1),
                FieldOf::Be32(*proto2),
            ],
            GamePacketOf::SCLoginStatus { status } => vec![
                FieldOf::Be32(*status),
            ],
            GamePacketOf::CSReady { status } => vec![
                FieldOf::Byte(*status),
            ],
            GamePacketOf::SCMessage { message } => vec![
                FieldOf::StrBe(message.clone()),
            ],
            GamePacketOf::SCSetTime { time } => vec![
                FieldOf::Be32(*time),
            ],
            GamePacketOf::SCStartGame { seed, worldgen_version, gamemode, entity_id, pos_x, pos_y, pos_z } => vec![
                FieldOf::Be32(*seed),
                FieldOf::Be32(*worldgen_version),
                FieldOf::Be32(*gamemode),
                FieldOf::Be32(*entity_id),
                FieldOf::Be32(*pos_x),
                FieldOf::Be32(*pos_y),
                FieldOf::Be32(*pos_z),
            ],
            GamePacketOf::SCAddMob { entity_id, entity_type, pos_x, pos_y, pos_z, rot_y, rot_x, metadata } => vec![
                FieldOf::Be32(*entity_id),
                FieldOf::Be32(*entity_type),
                FieldOf::Be32(*pos_x),
                FieldOf::Be32(*pos_y),
                FieldOf::Be32(*pos_z),
                FieldOf::Be32(*rot_y),
                FieldOf::Be32(*rot_x),
                FieldOf::Byte(*metadata),
            ],
            GamePacketOf::SCAddPlayer { client_id, username, entity_id, pos_x, pos_y, pos_z, rot_y, rot_x, held_item_id, held_item_aux, metadata } => vec![
                FieldOf::SignedBe32(*client_id),
                FieldOf::StrBe(username.clone()),
                FieldOf::Be32(*entity_id),
                FieldOf::Be32(*pos_x),
                FieldOf::Be32(*pos_y),
                FieldOf::Be32(*pos_z),
                FieldOf::Byte(*rot_y),
                FieldOf::Byte(*rot_x),
                FieldOf::Be32(*held_item_id),
                FieldOf::Be32(*held_item_aux),
                FieldOf::Byte(*metadata),
            ],
            GamePacketOf::SCRemovePlayer { entity_id, client_id } => vec![
                FieldOf::Be32(*entity_id),
                FieldOf::SignedBe32(*client_id),
            ],
            GamePacketOf::SCAddEntity { entity_id, entity_type, pos_x, pos_y, pos_z, has_motion, speed_x, speed_y, speed_z } => vec![
                FieldOf::Be32(*entity_id),
                FieldOf::Byte(*entity_type),
                FieldOf::Be32(*pos_x),
                FieldOf::Be32(*pos_y),
                FieldOf::Be32(*pos_z),
                FieldOf::Be32(*has_motion),
                FieldOf::Be32(*speed_x),
                FieldOf::Be32(*speed_y),
                FieldOf::Be32(*speed_z),
            ],
            GamePacketOf::SCRemoveEntity { entity_id } => vec![
                FieldOf::Be32(*entity_id),
            ],
            GamePacketOf::SCAddItemEntity { entity_id, item_id, item_amount, item_data, pos_x, pos_y, pos_z, speed_x, speed_y, speed_z } => vec![
                FieldOf::Be32(*entity_id),
                FieldOf::Be16(*item_id),
                FieldOf::Byte(*item_amount),
                FieldOf::Be16(*item_data),
                FieldOf::Be32(*pos_x),
                FieldOf::Be32(*pos_y),
                FieldOf::Be32(*pos_z),
                FieldOf::SignedByte(*speed_x),
                FieldOf::SignedByte(*speed_y),
                FieldOf::SignedByte(*speed_z),
            ],
            GamePacketOf::SCTakeItemEntity { target, entity_id } => vec![
                FieldOf::Be32(*target),
                FieldOf::Be32(*entity_id),
            ],
            GamePacketOf::SCMoveEntity { entity_id, pos_x, pos_y, pos_z } => vec![
                FieldOf::Be32(*entity_id),
                FieldOf::Be32(*pos_x),
                FieldOf::Be32(*pos_y),
                FieldOf::Be32(*pos_z),
            ],
            GamePacketOf::SCMoveEntityWithRotation { entity_id, pos_x, pos_y, pos_z, rot_y, rot_x } => vec![
                FieldOf::Be32(*entity_id),
                FieldOf::Be32(*pos_x),
                FieldOf::Be32(*pos_y),
                FieldOf::Be32(*pos_z),
                FieldOf::Be32(*rot_y),
                FieldOf::Be32(*rot_x),
            ],
            GamePacketOf::MovePlayer { entity_id, pos_x, pos_y, pos_z, rot_y, rot_x } => vec![
                FieldOf::Be32(*entity_id),
                FieldOf::Be32(*pos_x),
                FieldOf::Be32(*pos_y),
                FieldOf::Be32(*pos_z),
                FieldOf::Be32(*rot_y),
                FieldOf::Be32(*rot_x),
            ],
            GamePacketOf::PlaceBlock { entity_id, pos_x, pos_z, pos_y, block_id, block_aux, face } => vec![
                FieldOf::Be32(*entity_id),
                FieldOf::Be32(*pos_x),
                FieldOf::Be32(*pos_z),
                FieldOf::Byte(*pos_y),
                FieldOf::Byte(*block_id),
                FieldOf::Byte(*block_aux),
                FieldOf::Byte(*face),
            ],
            GamePacketOf::RemoveBlock { entity_id, pos_x, pos_z, pos_y } => vec![
                FieldOf::Be32(*entity_id),
                FieldOf::Be32(*pos_x),
                FieldOf::Be32(*pos_z),
                FieldOf::Byte(*pos_y),
            ],
            GamePacketOf::SCUpdateBlock { pos_x, pos_z, pos_y, block_id, block_aux } => vec![
                FieldOf::Be32(*pos_x),
                FieldOf::Be32(*pos_z),
                FieldOf::Byte(*pos_y),
                FieldOf::Byte(*block_id),
                FieldOf::Byte(*block_aux),
            ],
            GamePacketOf::SCAddPainting { entity_id, pos_x, pos_y, pos_z, direction, title } => vec![
                FieldOf::Be32(*entity_id),
                FieldOf::Be32(*pos_x),
                FieldOf::Be32(*pos_y),
                FieldOf::Be32(*pos_z),
                FieldOf::Be32(*direction),
                FieldOf::StrBe(title.clone()),
            ],
            GamePacketOf::SCLevelEvent { event_id, pos_x, pos_y, pos_z, data } => vec![
                FieldOf::Be32(*event_id),
                FieldOf::Be32(*pos_x),
                FieldOf::Be32(*pos_y),
                FieldOf::Be32(*pos_z),
                FieldOf::Be32(*data),
            ],
            GamePacketOf::SCTileEvent { pos_x, pos_y, pos_z, case1, case2 } => vec![
                FieldOf::Be32(*pos_x),
                FieldOf::Be32(*pos_y),
                FieldOf::Be32(*pos_z),
                FieldOf::Be32(*case1),
                FieldOf::Be32(*case2),
            ],
            GamePacketOf::EntityEvent { entity_id, event } => vec![
                FieldOf::Be32(*entity_id),
                FieldOf::Byte(*event),
            ],
            GamePacketOf::CSRequestChunk { index_x, index_z } => vec![
                FieldOf::Be32(*index_x),
                FieldOf::Be32(*index_z),
            ],
            GamePacketOf::SCChunkDataPacket { index_x, index_z, chunk_data } => vec![
                FieldOf::Be32(*index_x),
                FieldOf::Be32(*index_z),
                FieldOf::Byte(*chunk_data),
            ],
            GamePacketOf::PlayerArmorEquipment { entity_id, slot0, slot1, slot2, slot3 } => vec![
                FieldOf::Be32(*entity_id),
                FieldOf::Byte(*slot0),
                FieldOf::Byte(*slot1),
                FieldOf::Byte(*slot2),
                FieldOf::Byte(*slot3),
            ],
            GamePacketOf::Interact { action, entity_id, target } => vec![
                FieldOf::Byte(*action),
                FieldOf::Be32(*entity_id),
                FieldOf::Be32(*target),
            ],
            GamePacketOf::CSPlayerAction { action, pos_x, pos_y, pos_z, face, entity_id } => vec![
                FieldOf::Be32(*action),
                FieldOf::Be32(*pos_x),
                FieldOf::Be32(*pos_y),
                FieldOf::Be32(*pos_z),
                FieldOf::Be32(*face),
                FieldOf::Be32(*entity_id),
            ],
            GamePacketOf::SCHurtArmor { health } => vec![
                FieldOf::Byte(*health),
            ],
            GamePacketOf::SCSetEntityData { entity_id, metadata } => vec![
                FieldOf::Be32(*entity_id),
                FieldOf::Byte(*metadata),
            ],
            GamePacketOf::SCSetEntityMotion { entity_id, speed_x, speed_y, speed_z } => vec![
                FieldOf::Be32(*entity_id),
                FieldOf::Be32(*speed_x),
                FieldOf::Be32(*speed_y),
                FieldOf::Be32(*speed_z),
            ],
            GamePacketOf::SCSetHealth { health } => vec![
                FieldOf::Byte(*health),
            ],
            GamePacketOf::SCSetSpawnPosition { pos_x, pos_z, pos_y } => vec![
                FieldOf::Be32(*pos_x),
                FieldOf::Be32(*pos_z),
                FieldOf::Byte(*pos_y),
            ],
            GamePacketOf::Animate { action, entity_id } => vec![
                FieldOf::Byte(*action),
                FieldOf::Be32(*entity_id),
            ],
            GamePacketOf::Respawn { entity_id, pos_x, pos_y, pos_z } => vec![
                FieldOf::Be32(*entity_id),
                FieldOf::Be32(*pos_x),
                FieldOf::Be32(*pos_y),
                FieldOf::Be32(*pos_z),
            ],
            GamePacketOf::CSDropItem { entity_id, is_death, item_id, item_amount, item_data } => vec![
                FieldOf::Be32(*entity_id),
                FieldOf::Byte(*is_death),
                FieldOf::Be16(*item_id),
                FieldOf::Byte(*item_amount),
                FieldOf::Be16(*item_data),
            ],
            GamePacketOf::SCContainerOpen { window_id, window_type, slot, title } => vec![
                FieldOf::Byte(*window_id),
                FieldOf::Byte(*window_type),
                FieldOf::Byte(*slot),
                FieldOf::StrBe(title.clone()),
            ],
            GamePacketOf::ContainerClose { window_id } => vec![
                FieldOf::Byte(*window_id),
            ],
            GamePacketOf::SCContainerSetData { window_id, property, value } => vec![
                FieldOf::Byte(*window_id),
                FieldOf::Be32(*property),
                FieldOf::Be32(*value),
            ],
            GamePacketOf::CSChat { message } => vec![
                FieldOf::StrBe(message.clone()),
            ],
            GamePacketOf::SignUpdate { pos_x, pos_y, pos_z, line_1, line_2, line_3, line_4 } => vec![
                FieldOf::Be16(*pos_x),
                FieldOf::Byte(*pos_y),
                FieldOf::Be16(*pos_z),
                FieldOf::StrLe(line_1.clone()),
                FieldOf::StrLe(line_2.clone()),
                FieldOf::StrLe(line_3.clone()),
                FieldOf::StrLe(line_4.clone()),
            ],
        };
        assert(fields_view(r@) =~= self@.fields());
        r
    }

    /// The bytes of the packet, or `StringTooLong` where a string does not
    /// fit its byte count.
    pub fn encode(&self) -> (r: Result<Vec<u8>, EncodeError>)
        ensures
            r is Ok <==> self@.wf(),
            r matches Ok(v) ==> v@ == game_bytes(self@),
            r matches Err(e) ==> e == EncodeError::StringTooLong,
    {
        let fs = self.to_fields();
        if !check_fields(&fs) {
            return Err(EncodeError::StringTooLong);
        }
        let mut out: Vec<u8> = Vec::new();
        out.push(self.packet_id());
        write_fields(&mut out, &fs);
        assert(out@ =~= game_bytes(self@));
        Ok(out)
    }

    /// Reads a game packet from the start of `b`; bytes after it are left
    /// unread.
    pub fn decode(b: &[u8]) -> (r: Result<GamePacket, DecodeError>)
        ensures
            match (r, parse_game(b@)) {
                (Ok(p), Ok((q, _))) => p@ == q,
                (Err(e), Err(d)) => e == d,
                _ => false,
            },
    {
        if b.len() == 0 {
            return Err(DecodeError::UnexpectedEnd);
        }
        let id = b[0];
        match shape_of(id) {
            None => Err(DecodeError::UnknownId(id)),
            Some(ks) => match read_fields(&ks, b, 1) {
                Ok((fs, _)) => {
                    proof {
                        lemma_parse_fields_kinds(ks@, b@, 1);
                    }
                    Ok(build_packet(id, fs))
                },
                Err(e) => Err(e),
            },
        }
    }
}

/// The shapes of the fields of the packet with id `id`, if there is one.
pub fn shape_of(id: u8) -> (r: Option<Vec<FieldKind>>)
    ensures
        r is None <==> shape(id) is None,
        r matches Some(v) ==> shape(id) == Some(v@),
{
    if id == 0x00 {
        let v: Vec<FieldKind> = vec![FieldKind::Be64];
        assert(v@ =~= shape(id)->0);
        Some(v)
    } else if id == 0x03 {
        let v: Vec<FieldKind> = vec![FieldKind::Be64, FieldKind::Be64];
        assert(v@ =~= shape(id)->0);
        Some(v)
    } else if id == 0x09 {
        let v: Vec<FieldKind> = vec![FieldKind::Be64, FieldKind::Be64, FieldKind::Byte];
        assert(v@ =~= shape(id)->0);
        Some(v)
    } else if id == 0x10 {
        let v: Vec<FieldKind> = vec![FieldKind::Fixed(Constant::HandshakeCookie), FieldKind::Fixed(Constant::HandshakeFlags), FieldKind::Be16, FieldKind::Fixed(Constant::HandshakeData), FieldKind::Fixed(Constant::HandshakeDoubleNull), FieldKind::Be64, FieldKind::Fixed(Constant::HandshakeUnknown)];
        assert(v@ =~= shape(id)->0);
        Some(v)
    } else if id == 0x13 {
        let v: Vec<FieldKind> = vec![FieldKind::Byte];
        assert(v@ =~= shape(id)->0);
        Some(v)
    } else if id == 0x15 {
        let v: Vec<FieldKind> = vec![];
        assert(v@ =~= shape(id)->0);
        Some(v)
    } else if id == 0x82 {
        let v: Vec<FieldKind> = vec![FieldKind::StrBe, FieldKind::Be32, FieldKind::Be32];
        assert(v@ =~= shape(id)->0);
        Some(v)
    } else if id == 0x83 {
        let v: Vec<FieldKind> = vec![FieldKind::Be32];
        assert(v@ =~= shape(id)->0);
        Some(v)
    } else if id == 0x84 {
        let v: Vec<FieldKind> = vec![FieldKind::Byte];
        assert(v@ =~= shape(id)->0);
        Some(v)
    } else if id == 0x85 {
        let v: Vec<FieldKind> = vec![FieldKind::StrBe];
        assert(v@ =~= shape(id)->0);
        Some(v)
    } else if id == 0x86 {
        let v: Vec<FieldKind> = vec![FieldKind::Be32];
        assert(v@ =~= shape(id)->0);
        Some(v)
    } else if id == 0x87 {
        let v: Vec<FieldKind> = vec![FieldKind::Be32, FieldKind::Be32, FieldKind::Be32, FieldKind::Be32, FieldKind::Be32, FieldKind::Be32, FieldKind::Be32];
        assert(v@ =~= shape(id)->0);
        Some(v)
    } else if id == 0x88 {
        let v: Vec<FieldKind> = vec![FieldKind::Be32, FieldKind::Be32, FieldKind::Be32, FieldKind::Be32, FieldKind::Be32, FieldKind::Be32, FieldKind::Be32, FieldKind::Byte];
        assert(v@ =~= shape(id)->0);
        Some(v)
    } else if id == 0x89 {
        let v: Vec<FieldKind> = vec![FieldKind::SignedBe32, FieldKind::StrBe, FieldKind::Be32, FieldKind::Be32, FieldKind::Be32, FieldKind::Be32, FieldKind::Byte, FieldKind::Byte, FieldKind::Be32, FieldKind::Be32, FieldKind::Byte];
        assert(v@ =~= shape(id)->0);
        Some(v)
    } else if id == 0x8a {
        let v: Vec<FieldKind> = vec![FieldKind::Be32, FieldKind::SignedBe32];
        assert(v@ =~= shape(id)->0);
        Some(v)
    } else if id == 0x8c {
        let v: Vec<FieldKind> = vec![FieldKind::Be32, FieldKind::Byte, FieldKind::Be32, FieldKind::Be32, FieldKind::Be32, FieldKind::Be32, FieldKind::Be32, FieldKind::Be32, FieldKind::Be32];
        assert(v@ =~= shape(id)->0);
        Some(v)
    } else if id == 0x8d {
        let v: Vec<FieldKind> = vec![FieldKind::Be32];
        assert(v@ =~= shape(id)->0);
        Some(v)
    } else if id == 0x8e {
        let v: Vec<FieldKind> = vec![FieldKind::Be32, FieldKind::Be16, FieldKind::Byte, FieldKind::Be16, FieldKind::Be32, FieldKind::Be32, FieldKind::Be32, FieldKind::SignedByte, FieldKind::SignedByte, FieldKind::SignedByte];
        assert(v@ =~= shape(id)->0);
        Some(v)
    } else if id == 0x8f {
        let v: Vec<FieldKind> = vec![FieldKind::Be32, FieldKind::Be32];
        assert(v@ =~= shape(id)->0);
        Some(v)
    } else if id == 0x90 {
        let v: Vec<FieldKind> = vec![FieldKind::Be32, FieldKind::Be32, FieldKind::Be32, FieldKind::Be32];
        assert(v@ =~= shape(id)->0);
        Some(v)
    } else if id == 0x93 {
        let v: Vec<FieldKind> = vec![FieldKind::Be32, FieldKind::Be32, FieldKind::Be32, FieldKind::Be32, FieldKind::Be32, FieldKind::Be32];
        assert(v@ =~= shape(id)->0);
        Some(v)
    } else if id == 0x94 {
        let v: Vec<FieldKind> = vec![FieldKind::Be32, FieldKind::Be32, FieldKind::Be32, FieldKind::Be32, FieldKind::Be32, FieldKind::Be32];
        assert(v@ =~= shape(id)->0);
        Some(v)
    } else if id == 0x95 {
        let v: Vec<FieldKind> = vec![FieldKind::Be32, FieldKind::Be32, FieldKind::Be32, FieldKind::Byte, FieldKind::Byte, FieldKind::Byte, FieldKind::Byte];
        assert(v@ =~= shape(id)->0);
        Some(v)
    } else if id == 0x96 {
        let v: Vec<FieldKind> = vec![FieldKind::Be32, FieldKind::Be32, FieldKind::Be32, FieldKind::Byte];
        assert(v@ =~= shape(id)->0);
        Some(v)
    } else if id == 0x97 {
        let v: Vec<FieldKind> = vec![FieldKind::Be32, FieldKind::Be32, FieldKind::Byte, FieldKind::Byte, FieldKind::Byte];
        assert(v@ =~= shape(id)->0);
        Some(v)
    } else if id == 0x98 {
        let v: Vec<FieldKind> = vec![FieldKind::Be32, FieldKind::Be32, FieldKind::Be32, FieldKind::Be32, FieldKind::Be32, FieldKind::StrBe];
        assert(v@ =~= shape(id)->0);
        Some(v)
    } else if id == 0x9a {
        let v: Vec<FieldKind> = vec![FieldKind::Be32, FieldKind::Be32, FieldKind::Be32, FieldKind::Be32, FieldKind::Be32];
        assert(v@ =~= shape(id)->0);
        Some(v)
    } else if id == 0x9b {
        let v: Vec<FieldKind> = vec![FieldKind::Be32, FieldKind::Be32, FieldKind::Be32, FieldKind::Be32, FieldKind::Be32];
        assert(v@ =~= shape(id)->0);
        Some(v)
    } else if id == 0x9c {
        let v: Vec<FieldKind> = vec![FieldKind::Be32, FieldKind::Byte];
        assert(v@ =~= shape(id)->0);
        Some(v)
    } else if id == 0x9d {
        let v: Vec<FieldKind> = vec![FieldKind::Be32, FieldKind::Be32];
        assert(v@ =~= shape(id)->0);
        Some(v)
    } else if id == 0x9e {
        let v: Vec<FieldKind> = vec![FieldKind::Be32, FieldKind::Be32, FieldKind::Byte];
        assert(v@ =~= shape(id)->0);
        Some(v)
    } else if id == 0xa0 {
        let v: Vec<FieldKind> = vec![FieldKind::Be32, FieldKind::Byte, FieldKind::Byte, FieldKind::Byte, FieldKind::Byte];
        assert(v@ =~= shape(id)->0);
        Some(v)
    } else if id == 0xa1 {
        let v: Vec<FieldKind> = vec![FieldKind::Byte, FieldKind::Be32, FieldKind::Be32];
        assert(v@ =~= shape(id)->0);
        Some(v)
    } else if id == 0xa3 {
        let v: Vec<FieldKind> = vec![FieldKind::Be32, FieldKind::Be32, FieldKind::Be32, FieldKind::Be32, FieldKind::Be32, FieldKind::Be32];
        assert(v@ =~= shape(id)->0);
        Some(v)
    } else if id == 0xa5 {
        let v: Vec<FieldKind> = vec![FieldKind::Byte];
        assert(v@ =~= shape(id)->0);
        Some(v)
    } else if id == 0xa6 {
        let v: Vec<FieldKind> = vec![FieldKind::Be32, FieldKind::Byte];
        assert(v@ =~= shape(id)->0);
        Some(v)
    } else if id == 0xa7 {
        let v: Vec<FieldKind> = vec![FieldKind::Be32, FieldKind::Be32, FieldKind::Be32, FieldKind::Be32];
        assert(v@ =~= shape(id)->0);
        Some(v)
    } else if id == 0xa8 {
        let v: Vec<FieldKind> = vec![FieldKind::Byte];
        assert(v@ =~= shape(id)->0);
        Some(v)
    } else if id == 0xa9 {
        let v: Vec<FieldKind> = vec![FieldKind::Be32, FieldKind::Be32, FieldKind::Byte];
        assert(v@ =~= shape(id)->0);
        Some(v)
    } else if id == 0xaa {
        let v: Vec<FieldKind> = vec![FieldKind::Byte, FieldKind::Be32];
        assert(v@ =~= shape(id)->0);
        Some(v)
    } else if id == 0xab {
        let v: Vec<FieldKind> = vec![FieldKind::Be32, FieldKind::Be32, FieldKind::Be32, FieldKind::Be32];
        assert(v@ =~= shape(id)->0);
        Some(v)
    } else if id == 0xad {
        let v: Vec<FieldKind> = vec![FieldKind::Be32, FieldKind::Byte, FieldKind::Be16, FieldKind::Byte, FieldKind::Be16];
        assert(v@ =~= shape(id)->0);
        Some(v)
    } else if id == 0xae {
        let v: Vec<FieldKind> = vec![FieldKind::Byte, FieldKind::Byte, FieldKind::Byte, FieldKind::StrBe];
        assert(v@ =~= shape(id)->0);
        Some(v)
    } else if id == 0xaf {
        let v: Vec<FieldKind> = vec![FieldKind::Byte];
        assert(v@ =~= shape(id)->0);
        Some(v)
    } else if id == 0xb1 {
        let v: Vec<FieldKind> = vec![FieldKind::Byte, FieldKind::Be32, FieldKind::Be32];
        assert(v@ =~= shape(id)->0);
        Some(v)
    } else if id == 0xb4 {
        let v: Vec<FieldKind> = vec![FieldKind::StrBe];
        assert(v@ =~= shape(id)->0);
        Some(v)
    } else if id == 0xb5 {
        let v: Vec<FieldKind> = vec![FieldKind::Be16, FieldKind::Byte, FieldKind::Be16, FieldKind::StrLe, FieldKind::StrLe, FieldKind::StrLe, FieldKind::StrLe];
        assert(v@ =~= shape(id)->0);
        Some(v)
    } else {
        None
    }
}

/// The packet with id `id` made of the fields `fs`.
pub fn build_packet(id: u8, fs: Vec<Field>) -> (r: GamePacket)
    requires
        shape(id) == Some(kinds_of(fields_view(fs@))),
    ensures
        r@ == build(id, fields_view(fs@)),
{
    let ghost g = fields_view(fs@);
    let mut fs = fs;
    let ghost v = fs@;
    proof {
        assert(g.len() == fs@.len());
        assert(kinds_of(g).len() == g.len());
        assert forall|i: int| 0 <= i < fs@.len() implies kind_of(#[trigger] fs@[i]@) == kinds_of(g)[i] by {
            assert(g[i] == fs@[i]@);
        }
    }
    if id == 0x00 {
        assert(kinds_of(g) =~= seq![FieldKind::Be64]);
        assert(fs@.len() == 1);
        assert(kind_of(v[0]@) == FieldKind::Be64);
        let f0 = pop_field(&mut fs);
        assert(f0 == v[0]);
        GamePacketOf::CSPing {
            ping_id: take_be64(f0),
        }
    } else if id == 0x03 {
        assert(kinds_of(g) =~= seq![FieldKind::Be64, FieldKind::Be64]);
        assert(fs@.len() == 2);
        assert(kind_of(v[0]@) == FieldKind::Be64);
        assert(kind_of(v[1]@) == FieldKind::Be64);
        let f1 = pop_field(&mut fs);
        let f0 = pop_field(&mut fs);
        assert(f0 == v[0]);
        assert(f1 == v[1]);
        GamePacketOf::SCPong {
            ping_id: take_be64(f0),
            pong_id: take_be64(f1),
        }
    } else if id == 0x09 {
        assert(kinds_of(g) =~= seq![FieldKind::Be64, FieldKind::Be64, FieldKind::Byte]);
        assert(fs@.len() == 3);
        assert(kind_of(v[0]@) == FieldKind::Be64);
        assert(kind_of(v[1]@) == FieldKind::Be64);
        assert(kind_of(v[2]@) == FieldKind::Byte);
        let f2 = pop_field(&mut fs);
        let f1 = pop_field(&mut fs);
        let f0 = pop_field(&mut fs);
        assert(f0 == v[0]);
        assert(f1 == v[1]);
        assert(f2 == v[2]);
        GamePacketOf::CSClientConnect {
            client_id: take_be64(f0),
            session: take_be64(f1),
            unknown: take_byte(f2),
        }
    } else if id == 0x10 {
        assert(kinds_of(g) =~= seq![FieldKind::Fixed(Constant::HandshakeCookie), FieldKind::Fixed(Constant::HandshakeFlags), FieldKind::Be16, FieldKind::Fixed(Constant::HandshakeData), FieldKind::Fixed(Constant::HandshakeDoubleNull), FieldKind::Be64, FieldKind::Fixed(Constant::HandshakeUnknown)]);
        assert(fs@.len() == 7);
        assert(kind_of(v[0]@) == FieldKind::Fixed(Constant::HandshakeCookie));
        assert(kind_of(v[1]@) == FieldKind::Fixed(Constant::HandshakeFlags));
        assert(kind_of(v[2]@) == FieldKind::Be16);
        assert(kind_of(v[3]@) == FieldKind::Fixed(Constant::HandshakeData));
        assert(kind_of(v[4]@) == FieldKind::Fixed(Constant::HandshakeDoubleNull));
        assert(kind_of(v[5]@) == FieldKind::Be64);
        assert(kind_of(v[6]@) == FieldKind::Fixed(Constant::HandshakeUnknown));
        let f6 = pop_field(&mut fs);
        let f5 = pop_field(&mut fs);
        let f4 = pop_field(&mut fs);
        let f3 = pop_field(&mut fs);
        let f2 = pop_field(&mut fs);
        let f1 = pop_field(&mut fs);
        let f0 = pop_field(&mut fs);
        assert(f0 == v[0]);
        assert(f1 == v[1]);
        assert(f2 == v[2]);
        assert(f3 == v[3]);
        assert(f4 == v[4]);
        assert(f5 == v[5]);
        assert(f6 == v[6]);
        GamePacketOf::SCServerHandshake {
            cookie: HandshakeCookie,
            flags: HandshakeFlags,
            server_port: take_be16(f2),
            data: HandshakeData,
            unknown1: HandshakeDoubleNull,
            session: take_be64(f5),
            unknown2: HandshakeUnknown,
        }
    } else if id == 0x13 {
        assert(kinds_of(g) =~= seq![FieldKind::Byte]);
        assert(fs@.len() == 1);
        assert(kind_of(v[0]@) == FieldKind::Byte);
        let f0 = pop_field(&mut fs);
        assert(f0 == v[0]);
        GamePacketOf::CSClientHandshake {
            dummy: take_byte(f0),
        }
    } else if id == 0x15 {
        GamePacketOf::CSClientCancelConnect {}
    } else if id == 0x82 {
        assert(kinds_of(g) =~= seq![FieldKind::StrBe, FieldKind::Be32, FieldKind::Be32]);
        assert(fs@.len() == 3);
        assert(kind_of(v[0]@) == FieldKind::StrBe);
        assert(kind_of(v[1]@) == FieldKind::Be32);
        assert(kind_of(v[2]@) == FieldKind::Be32);
        let f2 = pop_field(&mut fs);
        let f1 = pop_field(&mut fs);
        let f0 = pop_field(&mut fs);
        assert(f0 == v[0]);
        assert(f1 == v[1]);
        assert(f2 == v[2]);
        GamePacketOf::CSLogin {
            username: take_text(f0),
            proto1: take_be32(f1),
            proto2: take_be32(f2),
        }
    } else if id == 0x83 {
        assert(kinds_of(g) =~= seq![FieldKind::Be32]);
        assert(fs@.len() == 1);
        assert(kind_of(v[0]@) == FieldKind::Be32);
        let f0 = pop_field(&mut fs);
        assert(f0 == v[0]);
        GamePacketOf::SCLoginStatus {
            status: take_be32(f0),
        }
    } else if id == 0x84 {
        assert(kinds_of(g) =~= seq![FieldKind::Byte]);
        assert(fs@.len() == 1);
        assert(kind_of(v[0]@) == FieldKind::Byte);
        let f0 = pop_field(&mut fs);
        assert(f0 == v[0]);
        GamePacketOf::CSReady {
            status: take_byte(f0),
        }
    } else if id == 0x85 {
        assert(kinds_of(g) =~= seq![FieldKind::StrBe]);
        assert(fs@.len() == 1);
        assert(kind_of(v[0]@) == FieldKind::StrBe);
        let f0 = pop_field(&mut fs);
        assert(f0 == v[0]);
        GamePacketOf::SCMessage {
            message: take_text(f0),
        }
    } else if id == 0x86 {
        assert(kinds_of(g) =~= seq![FieldKind::Be32]);
        assert(fs@.len() == 1);
        assert(kind_of(v[0]@) == FieldKind::Be32);
        let f0 = pop_field(&mut fs);
        assert(f0 == v[0]);
        GamePacketOf::SCSetTime {
            time: take_be32(f0),
        }
    } else if id == 0x87 {
        assert(kinds_of(g) =~= seq![FieldKind::Be32, FieldKind::Be32, FieldKind::Be32, FieldKind::Be32, FieldKind::Be32, FieldKind::Be32, FieldKind::Be32]);
        assert(fs@.len() == 7);
        assert(kind_of(v[0]@) == FieldKind::Be32);
        assert(kind_of(v[1]@) == FieldKind::Be32);
        assert(kind_of(v[2]@) == FieldKind::Be32);
        assert(kind_of(v[3]@) == FieldKind::Be32);
        assert(kind_of(v[4]@) == FieldKind::Be32);
        assert(kind_of(v[5]@) == FieldKind::Be32);
        assert(kind_of(v[6]@) == FieldKind::Be32);
        let f6 = pop_field(&mut fs);
        let f5 = pop_field(&mut fs);
        let f4 = pop_field(&mut fs);
        let f3 = pop_field(&mut fs);
        let f2 = pop_field(&mut fs);
        let f1 = pop_field(&mut fs);
        let f0 = pop_field(&mut fs);
        assert(f0 == v[0]);
        assert(f1 == v[1]);
        assert(f2 == v[2]);
        assert(f3 == v[3]);
        assert(f4 == v[4]);
        assert(f5 == v[5]);
        assert(f6 == v[6]);
        GamePacketOf::SCStartGame {
            seed: take_be32(f0),
            worldgen_version: take_be32(f1),
            gamemode: take_be32(f2),
            entity_id: take_be32(f3),
            pos_x: take_be32(f4),
            pos_y: take_be32(f5),
            pos_z: take_be32(f6),
        }
    } else if id == 0x88 {
        assert(kinds_of(g) =~= seq![FieldKind::Be32, FieldKind::Be32, FieldKind::Be32, FieldKind::Be32, FieldKind::Be32, FieldKind::Be32, FieldKind::Be32, FieldKind::Byte]);
        assert(fs@.len() == 8);
        assert(kind_of(v[0]@) == FieldKind::Be32);
        assert(kind_of(v[1]@) == FieldKind::Be32);
        assert(kind_of(v[2]@) == FieldKind::Be32);
        assert(kind_of(v[3]@) == FieldKind::Be32);
        assert(kind_of(v[4]@) == FieldKind::Be32);
        assert(kind_of(v[5]@) == FieldKind::Be32);
        assert(kind_of(v[6]@) == FieldKind::Be32);
        assert(kind_of(v[7]@) == FieldKind::Byte);
        let f7 = pop_field(&mut fs);
        let f6 = pop_field(&mut fs);
        let f5 = pop_field(&mut fs);
        let f4 = pop_field(&mut fs);
        let f3 = pop_field(&mut fs);
        let f2 = pop_field(&mut fs);
        let f1 = pop_field(&mut fs);
        let f0 = pop_field(&mut fs);
        assert(f0 == v[0]);
        assert(f1 == v[1]);
        assert(f2 == v[2]);
        assert(f3 == v[3]);
        assert(f4 == v[4]);
        assert(f5 == v[5]);
        assert(f6 == v[6]);
        assert(f7 == v[7]);
        GamePacketOf::SCAddMob {
            entity_id: take_be32(f0),
            entity_type: take_be32(f1),
            pos_x: take_be32(f2),
            pos_y: take_be32(f3),
            pos_z: take_be32(f4),
            rot_y: take_be32(f5),
            rot_x: take_be32(f6),
            metadata: take_byte(f7),
        }
    } else if id == 0x89 {
        assert(kinds_of(g) =~= seq![FieldKind::SignedBe32, FieldKind::StrBe, FieldKind::Be32, FieldKind::Be32, FieldKind::Be32, FieldKind::Be32, FieldKind::Byte, FieldKind::Byte, FieldKind::Be32, FieldKind::Be32, FieldKind::Byte]);
        assert(fs@.len() == 11);
        assert(kind_of(v[0]@) == FieldKind::SignedBe32);
        assert(kind_of(v[1]@) == FieldKind::StrBe);
        assert(kind_of(v[2]@) == FieldKind::Be32);
        assert(kind_of(v[3]@) == FieldKind::Be32);
        assert(kind_of(v[4]@) == FieldKind::Be32);
        assert(kind_of(v[5]@) == FieldKind::Be32);
        assert(kind_of(v[6]@) == FieldKind::Byte);
        assert(kind_of(v[7]@) == FieldKind::Byte);
        assert(kind_of(v[8]@) == FieldKind::Be32);
        assert(kind_of(v[9]@) == FieldKind::Be32);
        assert(kind_of(v[10]@) == FieldKind::Byte);
        let f10 = pop_field(&mut fs);
        let f9 = pop_field(&mut fs);
        let f8 = pop_field(&mut fs);
        let f7 = pop_field(&mut fs);
        let f6 = pop_field(&mut fs);
        let f5 = pop_field(&mut fs);
        let f4 = pop_field(&mut fs);
        let f3 = pop_field(&mut fs);
        let f2 = pop_field(&mut fs);
        let f1 = pop_field(&mut fs);
        let f0 = pop_field(&mut fs);
        assert(f0 == v[0]);
        assert(f1 == v[1]);
        assert(f2 == v[2]);
        assert(f3 == v[3]);
        assert(f4 == v[4]);
        assert(f5 == v[5]);
        assert(f6 == v[6]);
        assert(f7 == v[7]);
        assert(f8 == v[8]);
        assert(f9 == v[9]);
        assert(f10 == v[10]);
        GamePacketOf::SCAddPlayer {
            client_id: take_signed_be32(f0),
            username: take_text(f1),
            entity_id: take_be32(f2),
            pos_x: take_be32(f3),
            pos_y: take_be32(f4),
            pos_z: take_be32(f5),
            rot_y: take_byte(f6),
            rot_x: take_byte(f7),
            held_item_id: take_be32(f8),
            held_item_aux: take_be32(f9),
            metadata: take_byte(f10),
        }
    } else if id == 0x8a {
        assert(kinds_of(g) =~= seq![FieldKind::Be32, FieldKind::SignedBe32]);
        assert(fs@.len() == 2);
        assert(kind_of(v[0]@) == FieldKind::Be32);
        assert(kind_of(v[1]@) == FieldKind::SignedBe32);
        let f1 = pop_field(&mut fs);
        let f0 = pop_field(&mut fs);
        assert(f0 == v[0]);
        assert(f1 == v[1]);
        GamePacketOf::SCRemovePlayer {
            entity_id: take_be32(f0),
            client_id: take_signed_be32(f1),
        }
    } else if id == 0x8c {
        assert(kinds_of(g) =~= seq![FieldKind::Be32, FieldKind::Byte, FieldKind::Be32, FieldKind::Be32, FieldKind::Be32, FieldKind::Be32, FieldKind::Be32, FieldKind::Be32, FieldKind::Be32]);
        assert(fs@.len() == 9);
        assert(kind_of(v[0]@) == FieldKind::Be32);
        assert(kind_of(v[1]@) == FieldKind::Byte);
        assert(kind_of(v[2]@) == FieldKind::Be32);
        assert(kind_of(v[3]@) == FieldKind::Be32);
        assert(kind_of(v[4]@) == FieldKind::Be32);
        assert(kind_of(v[5]@) == FieldKind::Be32);
        assert(kind_of(v[6]@) == FieldKind::Be32);
        assert(kind_of(v[7]@) == FieldKind::Be32);
        assert(kind_of(v[8]@) == FieldKind::Be32);
        let f8 = pop_field(&mut fs);
        let f7 = pop_field(&mut fs);
        let f6 = pop_field(&mut fs);
        let f5 = pop_field(&mut fs);
        let f4 = pop_field(&mut fs);
        let f3 = pop_field(&mut fs);
        let f2 = pop_field(&mut fs);
        let f1 = pop_field(&mut fs);
        let f0 = pop_field(&mut fs);
        assert(f0 == v[0]);
        assert(f1 == v[1]);
        assert(f2 == v[2]);
        assert(f3 == v[3]);
        assert(f4 == v[4]);
        assert(f5 == v[5]);
        assert(f6 == v[6]);
        assert(f7 == v[7]);
        assert(f8 == v[8]);
        GamePacketOf::SCAddEntity {
            entity_id: take_be32(f0),
            entity_type: take_byte(f1),
            pos_x: take_be32(f2),
            pos_y: take_be32(f3),
            pos_z: take_be32(f4),
            has_motion: take_be32(f5),
            speed_x: take_be32(f6),
            speed_y: take_be32(f7),
            speed_z: take_be32(f8),
        }
    } else if id == 0x8d {
        assert(kinds_of(g) =~= seq![FieldKind::Be32]);
        assert(fs@.len() == 1);
        assert(kind_of(v[0]@) == FieldKind::Be32);
        let f0 = pop_field(&mut fs);
        assert(f0 == v[0]);
        GamePacketOf::SCRemoveEntity {
            entity_id: take_be32(f0),
        }
    } else if id == 0x8e {
        assert(kinds_of(g) =~= seq![FieldKind::Be32, FieldKind::Be16, FieldKind::Byte, FieldKind::Be16, FieldKind::Be32, FieldKind::Be32, FieldKind::Be32, FieldKind::SignedByte, FieldKind::SignedByte, FieldKind::SignedByte]);
        assert(fs@.len() == 10);
        assert(kind_of(v[0]@) == FieldKind::Be32);
        assert(kind_of(v[1]@) == FieldKind::Be16);
        assert(kind_of(v[2]@) == FieldKind::Byte);
        assert(kind_of(v[3]@) == FieldKind::Be16);
        assert(kind_of(v[4]@) == FieldKind::Be32);
        assert(kind_of(v[5]@) == FieldKind::Be32);
        assert(kind_of(v[6]@) == FieldKind::Be32);
        assert(kind_of(v[7]@) == FieldKind::SignedByte);
        assert(kind_of(v[8]@) == FieldKind::SignedByte);
        assert(kind_of(v[9]@) == FieldKind::SignedByte);
        let f9 = pop_field(&mut fs);
        let f8 = pop_field(&mut fs);
        let f7 = pop_field(&mut fs);
        let f6 = pop_field(&mut fs);
        let f5 = pop_field(&mut fs);
        let f4 = pop_field(&mut fs);
        let f3 = pop_field(&mut fs);
        let f2 = pop_field(&mut fs);
        let f1 = pop_field(&mut fs);
        let f0 = pop_field(&mut fs);
        assert(f0 == v[0]);
        assert(f1 == v[1]);
        assert(f2 == v[2]);
        assert(f3 == v[3]);
        assert(f4 == v[4]);
        assert(f5 == v[5]);
        assert(f6 == v[6]);
        assert(f7 == v[7]);
        assert(f8 == v[8]);
        assert(f9 == v[9]);
        GamePacketOf::SCAddItemEntity {
            entity_id: take_be32(f0),
            item_id: take_be16(f1),
            item_amount: take_byte(f2),
            item_data: take_be16(f3),
            pos_x: take_be32(f4),
            pos_y: take_be32(f5),
            pos_z: take_be32(f6),
            speed_x: take_signed_byte(f7),
            speed_y: take_signed_byte(f8),
            speed_z: take_signed_byte(f9),
        }
    } else if id == 0x8f {
        assert(kinds_of(g) =~= seq![FieldKind::Be32, FieldKind::Be32]);
        assert(fs@.len() == 2);
        assert(kind_of(v[0]@) == FieldKind::Be32);
        assert(kind_of(v[1]@) == FieldKind::Be32);
        let f1 = pop_field(&mut fs);
        let f0 = pop_field(&mut fs);
        assert(f0 == v[0]);
        assert(f1 == v[1]);
        GamePacketOf::SCTakeItemEntity {
            target: take_be32(f0),
            entity_id: take_be32(f1),
        }
    } else if id == 0x90 {
        assert(kinds_of(g) =~= seq![FieldKind::Be32, FieldKind::Be32, FieldKind::Be32, FieldKind::Be32]);
        assert(fs@.len() == 4);
        assert(kind_of(v[0]@) == FieldKind::Be32);
        assert(kind_of(v[1]@) == FieldKind::Be32);
        assert(kind_of(v[2]@) == FieldKind::Be32);
        assert(kind_of(v[3]@) == FieldKind::Be32);
        let f3 = pop_field(&mut fs);
        let f2 = pop_field(&mut fs);
        let f1 = pop_field(&mut fs);
        let f0 = pop_field(&mut fs);
        assert(f0 == v[0]);
        assert(f1 == v[1]);
        assert(f2 == v[2]);
        assert(f3 == v[3]);
        GamePacketOf::SCMoveEntity {
            entity_id: take_be32(f0),
            pos_x: take_be32(f1),
            pos_y: take_be32(f2),
            pos_z: take_be32(f3),
        }
    } else if id == 0x93 {
        assert(kinds_of(g) =~= seq![FieldKind::Be32, FieldKind::Be32, FieldKind::Be32, FieldKind::Be32, FieldKind::Be32, FieldKind::Be32]);
        assert(fs@.len() == 6);
        assert(kind_of(v[0]@) == FieldKind::Be32);
        assert(kind_of(v[1]@) == FieldKind::Be32);
        assert(kind_of(v[2]@) == FieldKind::Be32);
        assert(kind_of(v[3]@) == FieldKind::Be32);
        assert(kind_of(v[4]@) == FieldKind::Be32);
        assert(kind_of(v[5]@) == FieldKind::Be32);
        let f5 = pop_field(&mut fs);
        let f4 = pop_field(&mut fs);
        let f3 = pop_field(&mut fs);
        let f2 = pop_field(&mut fs);
        let f1 = pop_field(&mut fs);
        let f0 = pop_field(&mut fs);
        assert(f0 == v[0]);
        assert(f1 == v[1]);
        assert(f2 == v[2]);
        assert(f3 == v[3]);
        assert(f4 == v[4]);
        assert(f5 == v[5]);
        GamePacketOf::SCMoveEntityWithRotation {
            entity_id: take_be32(f0),
            pos_x: take_be32(f1),
            pos_y: take_be32(f2),
            pos_z: take_be32(f3),
            rot_y: take_be32(f4),
            rot_x: take_be32(f5),
        }
    } else if id == 0x94 {
        assert(kinds_of(g) =~= seq![FieldKind::Be32, FieldKind::Be32, FieldKind::Be32, FieldKind::Be32, FieldKind::Be32, FieldKind::Be32]);
        assert(fs@.len() == 6);
        assert(kind_of(v[0]@) == FieldKind::Be32);
        assert(kind_of(v[1]@) == FieldKind::Be32);
        assert(kind_of(v[2]@) == FieldKind::Be32);
        assert(kind_of(v[3]@) == FieldKind::Be32);
        assert(kind_of(v[4]@) == FieldKind::Be32);
        assert(kind_of(v[5]@) == FieldKind::Be32);
        let f5 = pop_field(&mut fs);
        let f4 = pop_field(&mut fs);
        let f3 = pop_field(&mut fs);
        let f2 = pop_field(&mut fs);
        let f1 = pop_field(&mut fs);
        let f0 = pop_field(&mut fs);
        assert(f0 == v[0]);
        assert(f1 == v[1]);
        assert(f2 == v[2]);
        assert(f3 == v[3]);
        assert(f4 == v[4]);
        assert(f5 == v[5]);
        GamePacketOf::MovePlayer {
            entity_id: take_be32(f0),
            pos_x: take_be32(f1),
            pos_y: take_be32(f2),
            pos_z: take_be32(f3),
            rot_y: take_be32(f4),
            rot_x: take_be32(f5),
        }
    } else if id == 0x95 {
        assert(kinds_of(g) =~= seq![FieldKind::Be32, FieldKind::Be32, FieldKind::Be32, FieldKind::Byte, FieldKind::Byte, FieldKind::Byte, FieldKind::Byte]);
        assert(fs@.len() == 7);
        assert(kind_of(v[0]@) == FieldKind::Be32);
        assert(kind_of(v[1]@) == FieldKind::Be32);
        assert(kind_of(v[2]@) == FieldKind::Be32);
        assert(kind_of(v[3]@) == FieldKind::Byte);
        assert(kind_of(v[4]@) == FieldKind::Byte);
        assert(kind_of(v[5]@) == FieldKind::Byte);
        assert(kind_of(v[6]@) == FieldKind::Byte);
        let f6 = pop_field(&mut fs);
        let f5 = pop_field(&mut fs);
        let f4 = pop_field(&mut fs);
        let f3 = pop_field(&mut fs);
        let f2 = pop_field(&mut fs);
        let f1 = pop_field(&mut fs);
        let f0 = pop_field(&mut fs);
        assert(f0 == v[0]);
        assert(f1 == v[1]);
        assert(f2 == v[2]);
        assert(f3 == v[3]);
        assert(f4 == v[4]);
        assert(f5 == v[5]);
        assert(f6 == v[6]);
        GamePacketOf::PlaceBlock {
            entity_id: take_be32(f0),
            pos_x: take_be32(f1),
            pos_z: take_be32(f2),
            pos_y: take_byte(f3),
            block_id: take_byte(f4),
            block_aux: take_byte(f5),
            face: take_byte(f6),
        }
    } else if id == 0x96 {
        assert(kinds_of(g) =~= seq![FieldKind::Be32, FieldKind::Be32, FieldKind::Be32, FieldKind::Byte]);
        assert(fs@.len() == 4);
        assert(kind_of(v[0]@) == FieldKind::Be32);
        assert(kind_of(v[1]@) == FieldKind::Be32);
        assert(kind_of(v[2]@) == FieldKind::Be32);
        assert(kind_of(v[3]@) == FieldKind::Byte);
        let f3 = pop_field(&mut fs);
        let f2 = pop_field(&mut fs);
        let f1 = pop_field(&mut fs);
        let f0 = pop_field(&mut fs);
        assert(f0 == v[0]);
        assert(f1 == v[1]);
        assert(f2 == v[2]);
        assert(f3 == v[3]);
        GamePacketOf::RemoveBlock {
            entity_id: take_be32(f0),
            pos_x: take_be32(f1),
            pos_z: take_be32(f2),
            pos_y: take_byte(f3),
        }
    } else if id == 0x97 {
        assert(kinds_of(g) =~= seq![FieldKind::Be32, FieldKind::Be32, FieldKind::Byte, FieldKind::Byte, FieldKind::Byte]);
        assert(fs@.len() == 5);
        assert(kind_of(v[0]@) == FieldKind::Be32);
        assert(kind_of(v[1]@) == FieldKind::Be32);
        assert(kind_of(v[2]@) == FieldKind::Byte);
        assert(kind_of(v[3]@) == FieldKind::Byte);
        assert(kind_of(v[4]@) == FieldKind::Byte);
        let f4 = pop_field(&mut fs);
        let f3 = pop_field(&mut fs);
        let f2 = pop_field(&mut fs);
        let f1 = pop_field(&mut fs);
        let f0 = pop_field(&mut fs);
        assert(f0 == v[0]);
        assert(f1 == v[1]);
        assert(f2 == v[2]);
        assert(f3 == v[3]);
        assert(f4 == v[4]);
        GamePacketOf::SCUpdateBlock {
            pos_x: take_be32(f0),
            pos_z: take_be32(f1),
            pos_y: take_byte(f2),
            block_id: take_byte(f3),
            block_aux: take_byte(f4),
        }
    } else if id == 0x98 {
        assert(kinds_of(g) =~= seq![FieldKind::Be32, FieldKind::Be32, FieldKind::Be32, FieldKind::Be32, FieldKind::Be32, FieldKind::StrBe]);
        assert(fs@.len() == 6);
        assert(kind_of(v[0]@) == FieldKind::Be32);
        assert(kind_of(v[1]@) == FieldKind::Be32);
        assert(kind_of(v[2]@) == FieldKind::Be32);
        assert(kind_of(v[3]@) == FieldKind::Be32);
        assert(kind_of(v[4]@) == FieldKind::Be32);
        assert(kind_of(v[5]@) == FieldKind::StrBe);
        let f5 = pop_field(&mut fs);
        let f4 = pop_field(&mut fs);
        let f3 = pop_field(&mut fs);
        let f2 = pop_field(&mut fs);
        let f1 = pop_field(&mut fs);
        let f0 = pop_field(&mut fs);
        assert(f0 == v[0]);
        assert(f1 == v[1]);
        assert(f2 == v[2]);
        assert(f3 == v[3]);
        assert(f4 == v[4]);
        assert(f5 == v[5]);
        GamePacketOf::SCAddPainting {
            entity_id: take_be32(f0),
            pos_x: take_be32(f1),
            pos_y: take_be32(f2),
            pos_z: take_be32(f3),
            direction: take_be32(f4),
            title: take_text(f5),
        }
    } else if id == 0x9a {
        assert(kinds_of(g) =~= seq![FieldKind::Be32, FieldKind::Be32, FieldKind::Be32, FieldKind::Be32, FieldKind::Be32]);
        assert(fs@.len() == 5);
        assert(kind_of(v[0]@) == FieldKind::Be32);
        assert(kind_of(v[1]@) == FieldKind::Be32);
        assert(kind_of(v[2]@) == FieldKind::Be32);
        assert(kind_of(v[3]@) == FieldKind::Be32);
        assert(kind_of(v[4]@) == FieldKind::Be32);
        let f4 = pop_field(&mut fs);
        let f3 = pop_field(&mut fs);
        let f2 = pop_field(&mut fs);
        let f1 = pop_field(&mut fs);
        let f0 = pop_field(&mut fs);
        assert(f0 == v[0]);
        assert(f1 == v[1]);
        assert(f2 == v[2]);
        assert(f3 == v[3]);
        assert(f4 == v[4]);
        GamePacketOf::SCLevelEvent {
            event_id: take_be32(f0),
            pos_x: take_be32(f1),
            pos_y: take_be32(f2),
            pos_z: take_be32(f3),
            data: take_be32(f4),
        }
    } else if id == 0x9b {
        assert(kinds_of(g) =~= seq![FieldKind::Be32, FieldKind::Be32, FieldKind::Be32, FieldKind::Be32, FieldKind::Be32]);
        assert(fs@.len() == 5);
        assert(kind_of(v[0]@) == FieldKind::Be32);
        assert(kind_of(v[1]@) == FieldKind::Be32);
        assert(kind_of(v[2]@) == FieldKind::Be32);
        assert(kind_of(v[3]@) == FieldKind::Be32);
        assert(kind_of(v[4]@) == FieldKind::Be32);
        let f4 = pop_field(&mut fs);
        let f3 = pop_field(&mut fs);
        let f2 = pop_field(&mut fs);
        let f1 = pop_field(&mut fs);
        let f0 = pop_field(&mut fs);
        assert(f0 == v[0]);
        assert(f1 == v[1]);
        assert(f2 == v[2]);
        assert(f3 == v[3]);
        assert(f4 == v[4]);
        GamePacketOf::SCTileEvent {
            pos_x: take_be32(f0),
            pos_y: take_be32(f1),
            pos_z: take_be32(f2),
            case1: take_be32(f3),
            case2: take_be32(f4),
        }
    } else if id == 0x9c {
        assert(kinds_of(g) =~= seq![FieldKind::Be32, FieldKind::Byte]);
        assert(fs@.len() == 2);
        assert(kind_of(v[0]@) == FieldKind::Be32);
        assert(kind_of(v[1]@) == FieldKind::Byte);
        let f1 = pop_field(&mut fs);
        let f0 = pop_field(&mut fs);
        assert(f0 == v[0]);
        assert(f1 == v[1]);
        GamePacketOf::EntityEvent {
            entity_id: take_be32(f0),
            event: take_byte(f1),
        }
    } else if id == 0x9d {
        assert(kinds_of(g) =~= seq![FieldKind::Be32, FieldKind::Be32]);
        assert(fs@.len() == 2);
        assert(kind_of(v[0]@) == FieldKind::Be32);
        assert(kind_of(v[1]@) == FieldKind::Be32);
        let f1 = pop_field(&mut fs);
        let f0 = pop_field(&mut fs);
        assert(f0 == v[0]);
        assert(f1 == v[1]);
        GamePacketOf::CSRequestChunk {
            index_x: take_be32(f0),
            index_z: take_be32(f1),
        }
    } else if id == 0x9e {
        assert(kinds_of(g) =~= seq![FieldKind::Be32, FieldKind::Be32, FieldKind::Byte]);
        assert(fs@.len() == 3);
        assert(kind_of(v[0]@) == FieldKind::Be32);
        assert(kind_of(v[1]@) == FieldKind::Be32);
        assert(kind_of(v[2]@) == FieldKind::Byte);
        let f2 = pop_field(&mut fs);
        let f1 = pop_field(&mut fs);
        let f0 = pop_field(&mut fs);
        assert(f0 == v[0]);
        assert(f1 == v[1]);
        assert(f2 == v[2]);
        GamePacketOf::SCChunkDataPacket {
            index_x: take_be32(f0),
            index_z: take_be32(f1),
            chunk_data: take_byte(f2),
        }
    } else if id == 0xa0 {
        assert(kinds_of(g) =~= seq![FieldKind::Be32, FieldKind::Byte, FieldKind::Byte, FieldKind::Byte, FieldKind::Byte]);
        assert(fs@.len() == 5);
        assert(kind_of(v[0]@) == FieldKind::Be32);
        assert(kind_of(v[1]@) == FieldKind::Byte);
        assert(kind_of(v[2]@) == FieldKind::Byte);
        assert(kind_of(v[3]@) == FieldKind::Byte);
        assert(kind_of(v[4]@) == FieldKind::Byte);
        let f4 = pop_field(&mut fs);
        let f3 = pop_field(&mut fs);
        let f2 = pop_field(&mut fs);
        let f1 = pop_field(&mut fs);
        let f0 = pop_field(&mut fs);
        assert(f0 == v[0]);
        assert(f1 == v[1]);
        assert(f2 == v[2]);
        assert(f3 == v[3]);
        assert(f4 == v[4]);
        GamePacketOf::PlayerArmorEquipment {
            entity_id: take_be32(f0),
            slot0: take_byte(f1),
            slot1: take_byte(f2),
            slot2: take_byte(f3),
            slot3: take_byte(f4),
        }
    } else if id == 0xa1 {
        assert(kinds_of(g) =~= seq![FieldKind::Byte, FieldKind::Be32, FieldKind::Be32]);
        assert(fs@.len() == 3);
        assert(kind_of(v[0]@) == FieldKind::Byte);
        assert(kind_of(v[1]@) == FieldKind::Be32);
        assert(kind_of(v[2]@) == FieldKind::Be32);
        let f2 = pop_field(&mut fs);
        let f1 = pop_field(&mut fs);
        let f0 = pop_field(&mut fs);
        assert(f0 == v[0]);
        assert(f1 == v[1]);
        assert(f2 == v[2]);
        GamePacketOf::Interact {
            action: take_byte(f0),
            entity_id: take_be32(f1),
            target: take_be32(f2),
        }
    } else if id == 0xa3 {
        assert(kinds_of(g) =~= seq![FieldKind::Be32, FieldKind::Be32, FieldKind::Be32, FieldKind::Be32, FieldKind::Be32, FieldKind::Be32]);
        assert(fs@.len() == 6);
        assert(kind_of(v[0]@) == FieldKind::Be32);
        assert(kind_of(v[1]@) == FieldKind::Be32);
        assert(kind_of(v[2]@) == FieldKind::Be32);
        assert(kind_of(v[3]@) == FieldKind::Be32);
        assert(kind_of(v[4]@) == FieldKind::Be32);
        assert(kind_of(v[5]@) == FieldKind::Be32);
        let f5 = pop_field(&mut fs);
        let f4 = pop_field(&mut fs);
        let f3 = pop_field(&mut fs);
        let f2 = pop_field(&mut fs);
        let f1 = pop_field(&mut fs);
        let f0 = pop_field(&mut fs);
        assert(f0 == v[0]);
        assert(f1 == v[1]);
        assert(f2 == v[2]);
        assert(f3 == v[3]);
        assert(f4 == v[4]);
        assert(f5 == v[5]);
        GamePacketOf::CSPlayerAction {
            action: take_be32(f0),
            pos_x: take_be32(f1),
            pos_y: take_be32(f2),
            pos_z: take_be32(f3),
            face: take_be32(f4),
            entity_id: take_be32(f5),
        }
    } else if id == 0xa5 {
        assert(kinds_of(g) =~= seq![FieldKind::Byte]);
        assert(fs@.len() == 1);
        assert(kind_of(v[0]@) == FieldKind::Byte);
        let f0 = pop_field(&mut fs);
        assert(f0 == v[0]);
        GamePacketOf::SCHurtArmor {
            health: take_byte(f0),
        }
    } else if id == 0xa6 {
        assert(kinds_of(g) =~= seq![FieldKind::Be32, FieldKind::Byte]);
        assert(fs@.len() == 2);
        assert(kind_of(v[0]@) == FieldKind::Be32);
        assert(kind_of(v[1]@) == FieldKind::Byte);
        let f1 = pop_field(&mut fs);
        let f0 = pop_field(&mut fs);
        assert(f0 == v[0]);
        assert(f1 == v[1]);
        GamePacketOf::SCSetEntityData {
            entity_id: take_be32(f0),
            metadata: take_byte(f1),
        }
    } else if id == 0xa7 {
        assert(kinds_of(g) =~= seq![FieldKind::Be32, FieldKind::Be32, FieldKind::Be32, FieldKind::Be32]);
        assert(fs@.len() == 4);
        assert(kind_of(v[0]@) == FieldKind::Be32);
        assert(kind_of(v[1]@) == FieldKind::Be32);
        assert(kind_of(v[2]@) == FieldKind::Be32);
        assert(kind_of(v[3]@) == FieldKind::Be32);
        let f3 = pop_field(&mut fs);
        let f2 = pop_field(&mut fs);
        let f1 = pop_field(&mut fs);
        let f0 = pop_field(&mut fs);
        assert(f0 == v[0]);
        assert(f1 == v[1]);
        assert(f2 == v[2]);
        assert(f3 == v[3]);
        GamePacketOf::SCSetEntityMotion {
            entity_id: take_be32(f0),
            speed_x: take_be32(f1),
            speed_y: take_be32(f2),
            speed_z: take_be32(f3),
        }
    } else if id == 0xa8 {
        assert(kinds_of(g) =~= seq![FieldKind::Byte]);
        assert(fs@.len() == 1);
        assert(kind_of(v[0]@) == FieldKind::Byte);
        let f0 = pop_field(&mut fs);
        assert(f0 == v[0]);
        GamePacketOf::SCSetHealth {
            health: take_byte(f0),
        }
    } else if id == 0xa9 {
        assert(kinds_of(g) =~= seq![FieldKind::Be32, FieldKind::Be32, FieldKind::Byte]);
        assert(fs@.len() == 3);
        assert(kind_of(v[0]@) == FieldKind::Be32);
        assert(kind_of(v[1]@) == FieldKind::Be32);
        assert(kind_of(v[2]@) == FieldKind::Byte);
        let f2 = pop_field(&mut fs);
        let f1 = pop_field(&mut fs);
        let f0 = pop_field(&mut fs);
        assert(f0 == v[0]);
        assert(f1 == v[1]);
        assert(f2 == v[2]);
        GamePacketOf::SCSetSpawnPosition {
            pos_x: take_be32(f0),
            pos_z: take_be32(f1),
            pos_y: take_byte(f2),
        }
    } else if id == 0xaa {
        assert(kinds_of(g) =~= seq![FieldKind::Byte, FieldKind::Be32]);
        assert(fs@.len() == 2);
        assert(kind_of(v[0]@) == FieldKind::Byte);
        assert(kind_of(v[1]@) == FieldKind::Be32);
        let f1 = pop_field(&mut fs);
        let f0 = pop_field(&mut fs);
        assert(f0 == v[0]);
        assert(f1 == v[1]);
        GamePacketOf::Animate {
            action: take_byte(f0),
            entity_id: take_be32(f1),
        }
    } else if id == 0xab {
        assert(kinds_of(g) =~= seq![FieldKind::Be32, FieldKind::Be32, FieldKind::Be32, FieldKind::Be32]);
        assert(fs@.len() == 4);
        assert(kind_of(v[0]@) == FieldKind::Be32);
        assert(kind_of(v[1]@) == FieldKind::Be32);
        assert(kind_of(v[2]@) == FieldKind::Be32);
        assert(kind_of(v[3]@) == FieldKind::Be32);
        let f3 = pop_field(&mut fs);
        let f2 = pop_field(&mut fs);
        let f1 = pop_field(&mut fs);
        let f0 = pop_field(&mut fs);
        assert(f0 == v[0]);
        assert(f1 == v[1]);
        assert(f2 == v[2]);
        assert(f3 == v[3]);
        GamePacketOf::Respawn {
            entity_id: take_be32(f0),
            pos_x: take_be32(f1),
            pos_y: take_be32(f2),
            pos_z: take_be32(f3),
        }
    } else if id == 0xad {
        assert(kinds_of(g) =~= seq![FieldKind::Be32, FieldKind::Byte, FieldKind::Be16, FieldKind::Byte, FieldKind::Be16]);
        assert(fs@.len() == 5);
        assert(kind_of(v[0]@) == FieldKind::Be32);
        assert(kind_of(v[1]@) == FieldKind::Byte);
        assert(kind_of(v[2]@) == FieldKind::Be16);
        assert(kind_of(v[3]@) == FieldKind::Byte);
        assert(kind_of(v[4]@) == FieldKind::Be16);
        let f4 = pop_field(&mut fs);
        let f3 = pop_field(&mut fs);
        let f2 = pop_field(&mut fs);
        let f1 = pop_field(&mut fs);
        let f0 = pop_field(&mut fs);
        assert(f0 == v[0]);
        assert(f1 == v[1]);
        assert(f2 == v[2]);
        assert(f3 == v[3]);
        assert(f4 == v[4]);
        GamePacketOf::CSDropItem {
            entity_id: take_be32(f0),
            is_death: take_byte(f1),
            item_id: take_be16(f2),
            item_amount: take_byte(f3),
            item_data: take_be16(f4),
        }
    } else if id == 0xae {
        assert(kinds_of(g) =~= seq![FieldKind::Byte, FieldKind::Byte, FieldKind::Byte, FieldKind::StrBe]);
        assert(fs@.len() == 4);
        assert(kind_of(v[0]@) == FieldKind::Byte);
        assert(kind_of(v[1]@) == FieldKind::Byte);
        assert(kind_of(v[2]@) == FieldKind::Byte);
        assert(kind_of(v[3]@) == FieldKind::StrBe);
        let f3 = pop_field(&mut fs);
        let f2 = pop_field(&mut fs);
        let f1 = pop_field(&mut fs);
        let f0 = pop_field(&mut fs);
        assert(f0 == v[0]);
        assert(f1 == v[1]);
        assert(f2 == v[2]);
        assert(f3 == v[3]);
        GamePacketOf::SCContainerOpen {
            window_id: take_byte(f0),
            window_type: take_byte(f1),
            slot: take_byte(f2),
            title: take_text(f3),
        }
    } else if id == 0xaf {
        assert(kinds_of(g) =~= seq![FieldKind::Byte]);
        assert(fs@.len() == 1);
        assert(kind_of(v[0]@) == FieldKind::Byte);
        let f0 = pop_field(&mut fs);
        assert(f0 == v[0]);
        GamePacketOf::ContainerClose {
            window_id: take_byte(f0),
        }
    } else if id == 0xb1 {
        assert(kinds_of(g) =~= seq![FieldKind::Byte, FieldKind::Be32, FieldKind::Be32]);
        assert(fs@.len() == 3);
        assert(kind_of(v[0]@) == FieldKind::Byte);
        assert(kind_of(v[1]@) == FieldKind::Be32);
        assert(kind_of(v[2]@) == FieldKind::Be32);
        let f2 = pop_field(&mut fs);
        let f1 = pop_field(&mut fs);
        let f0 = pop_field(&mut fs);
        assert(f0 == v[0]);
        assert(f1 == v[1]);
        assert(f2 == v[2]);
        GamePacketOf::SCContainerSetData {
            window_id: take_byte(f0),
            property: take_be32(f1),
            value: take_be32(f2),
        }
    } else if id == 0xb4 {
        assert(kinds_of(g) =~= seq![FieldKind::StrBe]);
        assert(fs@.len() == 1);
        assert(kind_of(v[0]@) == FieldKind::StrBe);
        let f0 = pop_field(&mut fs);
        assert(f0 == v[0]);
        GamePacketOf::CSChat {
            message: take_text(f0),
        }
    } else if id == 0xb5 {
        assert(kinds_of(g) =~= seq![FieldKind::Be16, FieldKind::Byte, FieldKind::Be16, FieldKind::StrLe, FieldKind::StrLe, FieldKind::StrLe, FieldKind::StrLe]);
        assert(fs@.len() == 7);
        assert(kind_of(v[0]@) == FieldKind::Be16);
        assert(kind_of(v[1]@) == FieldKind::Byte);
        assert(kind_of(v[2]@) == FieldKind::Be16);
        assert(kind_of(v[3]@) == FieldKind::StrLe);
        assert(kind_of(v[4]@) == FieldKind::StrLe);
        assert(kind_of(v[5]@) == FieldKind::StrLe);
        assert(kind_of(v[6]@) == FieldKind::StrLe);
        let f6 = pop_field(&mut fs);
        let f5 = pop_field(&mut fs);
        let f4 = pop_field(&mut fs);
        let f3 = pop_field(&mut fs);
        let f2 = pop_field(&mut fs);
        let f1 = pop_field(&mut fs);
        let f0 = pop_field(&mut fs);
        assert(f0 == v[0]);
        assert(f1 == v[1]);
        assert(f2 == v[2]);
        assert(f3 == v[3]);
        assert(f4 == v[4]);
        assert(f5 == v[5]);
        assert(f6 == v[6]);
        GamePacketOf::SignUpdate {
            pos_x: take_be16(f0),
            pos_y: take_byte(f1),
            pos_z: take_be16(f2),
            line_1: take_text(f3),
            line_2: take_text(f4),
            line_3: take_text(f5),
            line_4: take_text(f6),
        }
    } else {
        GamePacketOf::CSClientCancelConnect {}
    }
}

} // verus!
