//! Protocol-level constants and the small helpers that read the packed
//! fields of the wire format: the 16-bit packet-type word (compression flag
//! plus message type) and the 64-bit entity id (player discriminant plus
//! player uid).
use vstd::prelude::*;

verus! {

/// Service identifier carried at bytes [6,14) of every notify frame.
pub const SERVICE_UUID: u64 = 0x63335342;

/// Bit 15 of the packet-type word: the frame body is zstd-compressed.
pub const COMPRESSION_FLAG: u16 = 0x8000;

/// Bits 0-14 of the packet-type word: the message type.
pub const TYPE_MASK: u16 = 0x7FFF;

/// Entity-type discriminant (low 16 bits of an entity id) that marks a player.
pub const TYPE_PLAYER: u16 = 640;

/// Message type carried in the low 15 bits of the packet-type word.
/// Unknown numeric values map to `Unknown`.
#[derive(Debug, Clone, Copy, PartialEq, Eq, Hash, Structural)]
pub enum MessageType {
    Unknown,
    Call,
    Notify,
    Return,
    Echo,
    FrameUp,
    FrameDown,
}

/// Method identifier carried at bytes [18,22) of a notify frame.
#[derive(Debug, Clone, Copy, PartialEq, Eq, Hash, Structural)]
pub enum MessageMethod {
    SyncNearEntities,
    SyncContainerData,
    SyncContainerDirtyData,
    SyncServerTime,
    SyncNearDeltaInfo,
    SyncToMeDeltaInfo,
}

/// Attribute identifiers used inside entity attribute collections.
#[derive(Debug, Clone, Copy, PartialEq, Eq, Hash, Structural)]
pub enum AttrType {
    AttrName,
    AttrId,
    AttrHp,
    AttrMaxHp,
}

/// Numeric id of the name attribute.
pub const ATTR_ID_NAME: i32 = 0x01;

/// Numeric id of the identity (monster base id) attribute.
pub const ATTR_ID_IDENTITY: i32 = 0x0A;

/// Numeric id of the current-HP attribute.
pub const ATTR_ID_HP: i32 = 0x2C2E;

/// Numeric id of the max-HP attribute.
pub const ATTR_ID_MAX_HP: i32 = 0x2C38;

/// Numeric id of the position attribute.
pub const ATTR_ID_POSITION: i32 = 52;

impl AttrType {
    /// The numeric attribute id this variant stands for.
    pub open spec fn spec_id(self) -> i32 {
        match self {
            AttrType::AttrName => ATTR_ID_NAME,
            AttrType::AttrId => ATTR_ID_IDENTITY,
            AttrType::AttrHp => ATTR_ID_HP,
            AttrType::AttrMaxHp => ATTR_ID_MAX_HP,
        }
    }

    /// The numeric attribute id this variant stands for.
    pub fn id(self) -> (r: i32)
        ensures
            r == self.spec_id(),
    {
        match self {
            AttrType::AttrName => ATTR_ID_NAME,
            AttrType::AttrId => ATTR_ID_IDENTITY,
            AttrType::AttrHp => ATTR_ID_HP,
            AttrType::AttrMaxHp => ATTR_ID_MAX_HP,
        }
    }
}

/// The message type a numeric value decodes to; unknown numeric values give `Unknown`.
pub open spec fn spec_message_type(value: u16) -> MessageType {
    if value == 0 {
        MessageType::Unknown
    } else if value == 1 {
        MessageType::Call
    } else if value == 2 {
        MessageType::Notify
    } else if value == 3 {
        MessageType::Return
    } else if value == 4 {
        MessageType::Echo
    } else if value == 5 {
        MessageType::FrameUp
    } else if value == 6 {
        MessageType::FrameDown
    } else {
        MessageType::Unknown
    }
}

impl MessageType {
    /// Decode a message type from its numeric value; unknown numeric values give `Unknown`.
    pub fn from_u16(value: u16) -> (r: MessageType)
        ensures
            r == spec_message_type(value),
    {
        match value {
            0 => MessageType::Unknown,
            1 => MessageType::Call,
            2 => MessageType::Notify,
            3 => MessageType::Return,
            4 => MessageType::Echo,
            5 => MessageType::FrameUp,
            6 => MessageType::FrameDown,
            _ => MessageType::Unknown,
        }
    }
}

/// The method a numeric method id decodes to, if it is a known one.
pub open spec fn spec_message_method(value: u32) -> Option<MessageMethod> {
    if value == 0x06 {
        Some(MessageMethod::SyncNearEntities)
    } else if value == 0x15 {
        Some(MessageMethod::SyncContainerData)
    } else if value == 0x16 {
        Some(MessageMethod::SyncContainerDirtyData)
    } else if value == 0x2B {
        Some(MessageMethod::SyncServerTime)
    } else if value == 0x2D {
        Some(MessageMethod::SyncNearDeltaInfo)
    } else if value == 0x2E {
        Some(MessageMethod::SyncToMeDeltaInfo)
    } else {
        None
    }
}

impl MessageMethod {
    /// Decode a method from its numeric id; unknown ids give `None`.
    pub fn from_u32(value: u32) -> (r: Option<MessageMethod>)
        ensures
            r == spec_message_method(value),
    {
        match value {
            0x06 => Some(MessageMethod::SyncNearEntities),
            0x15 => Some(MessageMethod::SyncContainerData),
            0x16 => Some(MessageMethod::SyncContainerDirtyData),
            0x2B => Some(MessageMethod::SyncServerTime),
            0x2D => Some(MessageMethod::SyncNearDeltaInfo),
            0x2E => Some(MessageMethod::SyncToMeDeltaInfo),
            _ => None,
        }
    }
}

/// Whether the packet-type word has its compression bit (bit 15) set.
pub open spec fn spec_is_compressed(packet_type: u16) -> bool {
    packet_type & COMPRESSION_FLAG != 0
}

/// Whether the packet-type word has its compression bit (bit 15) set.
pub fn is_compressed(packet_type: u16) -> (r: bool)
    ensures
        r == spec_is_compressed(packet_type),
{
    packet_type & COMPRESSION_FLAG != 0
}

/// The message type: the low 15 bits of the packet-type word.
pub open spec fn spec_extract_type(packet_type: u16) -> u16 {
    packet_type & TYPE_MASK
}

/// The message type: the low 15 bits of the packet-type word.
pub fn extract_type(packet_type: u16) -> (r: u16)
    ensures
        r == spec_extract_type(packet_type),
{
    packet_type & TYPE_MASK
}

/// Whether an entity id denotes a player: its low 16 bits equal the
/// player discriminant.
pub open spec fn spec_is_player(uuid: i64) -> bool {
    uuid & 0xFFFF == TYPE_PLAYER as i64
}

/// Whether an entity id denotes a player: its low 16 bits equal the
/// player discriminant.
pub fn is_player(uuid: i64) -> (r: bool)
    ensures
        r == spec_is_player(uuid),
{
    uuid & 0xFFFF == TYPE_PLAYER as i64
}

/// The player-facing numeric id: the entity id shifted right by the 16
/// discriminant bits (arithmetic shift).
pub open spec fn spec_player_uid(uuid: i64) -> i64 {
    uuid >> 16
}

/// The player-facing numeric id: the entity id shifted right by the 16
/// discriminant bits (arithmetic shift).
pub fn get_player_uid(uuid: i64) -> (r: i64)
    ensures
        r == spec_player_uid(uuid),
{
    uuid >> 16
}

} // verus!
