//! The protocol's message model: the closed set of server-to-client and
//! client-to-server message kinds, with the payload fields the core reads.
//! Wire encoding and decoding of these values is the transport layer's job.

use vstd::prelude::*;

use crate::state::RawSlotData;

verus! {

/// A per-game table pairing item and location display names with their
/// numeric wire ids.
#[derive(Debug, Clone)]
pub struct GameData {
    pub item_name_to_id: Vec<(String, i64)>,
    pub location_name_to_id: Vec<(String, i64)>,
}

/// The server's first message: the seed identifier and, per tracked game,
/// the checksum of its current data package.
#[derive(Debug, Clone)]
pub struct RoomInfo {
    pub seed_name: String,
    pub datapackage_checksums: Vec<(String, String)>,
}

/// One connected participant: a numeric slot and a display alias.
#[derive(Debug, Clone)]
pub struct NetworkPlayer {
    pub slot: i64,
    pub alias: String,
}

/// The reply to a connect request: this client's slot, the player roster,
/// each slot's game, and the session configuration.
#[derive(Debug, Clone)]
pub struct Connected {
    pub slot: i64,
    pub players: Vec<NetworkPlayer>,
    pub slot_info: Vec<(i64, String)>,
    pub slot_data: RawSlotData,
    pub checked_locations: Vec<i64>,
    pub missing_locations: Vec<i64>,
}

/// One server-to-client message.
#[derive(Debug, Clone)]
pub enum Message {
    RoomInfo(RoomInfo),
    ConnectionRefused(Vec<String>),
    Connected(Connected),
    ReceivedItems(Vec<i64>),
    LocationInfo(Vec<i64>),
    RoomUpdate,
    Print(String),
    PrintJson(String),
    DataPackage(Vec<(String, GameData)>),
    Bounced,
    InvalidPacket,
    Retrieved(Vec<(String, String)>),
    SetReply(String, String),
}

/// The discriminant of a server-to-client message, used for request/reply
/// correlation: correlation matches on the first message of the right kind,
/// never on keys.
#[derive(Debug, Clone, Copy, PartialEq, Eq, Structural)]
pub enum MessageKind {
    RoomInfo,
    ConnectionRefused,
    Connected,
    ReceivedItems,
    LocationInfo,
    RoomUpdate,
    Print,
    PrintJson,
    DataPackage,
    Bounced,
    InvalidPacket,
    Retrieved,
    SetReply,
}

/// The kind of a message.
pub open spec fn kind_of(m: Message) -> MessageKind {
    match m {
        Message::RoomInfo(_) => MessageKind::RoomInfo,
        Message::ConnectionRefused(_) => MessageKind::ConnectionRefused,
        Message::Connected(_) => MessageKind::Connected,
        Message::ReceivedItems(_) => MessageKind::ReceivedItems,
        Message::LocationInfo(_) => MessageKind::LocationInfo,
        Message::RoomUpdate => MessageKind::RoomUpdate,
        Message::Print(_) => MessageKind::Print,
        Message::PrintJson(_) => MessageKind::PrintJson,
        Message::DataPackage(_) => MessageKind::DataPackage,
        Message::Bounced => MessageKind::Bounced,
        Message::InvalidPacket => MessageKind::InvalidPacket,
        Message::Retrieved(_) => MessageKind::Retrieved,
        Message::SetReply(_, _) => MessageKind::SetReply,
    }
}

/// Read a message's kind.
pub fn message_kind(m: &Message) -> (k: MessageKind)
    ensures
        k == kind_of(*m),
{
    match m {
        Message::RoomInfo(_) => MessageKind::RoomInfo,
        Message::ConnectionRefused(_) => MessageKind::ConnectionRefused,
        Message::Connected(_) => MessageKind::Connected,
        Message::ReceivedItems(_) => MessageKind::ReceivedItems,
        Message::LocationInfo(_) => MessageKind::LocationInfo,
        Message::RoomUpdate => MessageKind::RoomUpdate,
        Message::Print(_) => MessageKind::Print,
        Message::PrintJson(_) => MessageKind::PrintJson,
        Message::DataPackage(_) => MessageKind::DataPackage,
        Message::Bounced => MessageKind::Bounced,
        Message::InvalidPacket => MessageKind::InvalidPacket,
        Message::Retrieved(_) => MessageKind::Retrieved,
        Message::SetReply(_, _) => MessageKind::SetReply,
    }
}

/// One client-to-server message.
#[derive(Debug, Clone)]
pub enum ClientMessage {
    Connect {
        game: String,
        name: String,
        uuid: String,
        password: Option<String>,
        items_handling: Option<i64>,
        tags: Vec<String>,
    },
    Sync,
    LocationChecks(Vec<i64>),
    LocationScouts(Vec<i64>, i64),
    StatusUpdate(i64),
    Say(String),
    Bounce { games: Vec<String>, slots: Vec<String>, tags: Vec<String>, data: String },
    Get(Vec<String>),
    SetValue { key: String, default: String, want_reply: bool },
    GetDataPackage(Vec<String>),
}

/// Which reply kind completes a request, for the correlated helpers; a
/// fire-and-forget request expects none.
pub open spec fn spec_expected_reply_kind(m: ClientMessage) -> Option<MessageKind> {
    match m {
        ClientMessage::Connect { .. } => Some(MessageKind::Connected),
        ClientMessage::Sync => Some(MessageKind::ReceivedItems),
        ClientMessage::LocationScouts(_, _) => Some(MessageKind::LocationInfo),
        ClientMessage::Get(_) => Some(MessageKind::Retrieved),
        ClientMessage::SetValue { .. } => Some(MessageKind::SetReply),
        ClientMessage::GetDataPackage(_) => Some(MessageKind::DataPackage),
        ClientMessage::LocationChecks(_) => None,
        ClientMessage::StatusUpdate(_) => None,
        ClientMessage::Say(_) => None,
        ClientMessage::Bounce { .. } => None,
    }
}

/// Look a request's completing reply kind up.
pub fn expected_reply_kind(m: &ClientMessage) -> (k: Option<MessageKind>)
    ensures
        k == spec_expected_reply_kind(*m),
{
    match m {
        ClientMessage::Connect { .. } => Some(MessageKind::Connected),
        ClientMessage::Sync => Some(MessageKind::ReceivedItems),
        ClientMessage::LocationScouts(_, _) => Some(MessageKind::LocationInfo),
        ClientMessage::Get(_) => Some(MessageKind::Retrieved),
        ClientMessage::SetValue { .. } => Some(MessageKind::SetReply),
        ClientMessage::GetDataPackage(_) => Some(MessageKind::DataPackage),
        ClientMessage::LocationChecks(_) => None,
        ClientMessage::StatusUpdate(_) => None,
        ClientMessage::Say(_) => None,
        ClientMessage::Bounce { .. } => None,
    }
}

/// A typed failure of one protocol call.
#[derive(Debug, Clone)]
pub enum Error {
    /// A reply of an unexpected kind where a specific one was required.
    IllegalResponse { received: Message, expected: MessageKind },
    /// The transport ended before the call could complete; terminal for the
    /// connection.
    ConnectionClosed,
}

} // verus!
