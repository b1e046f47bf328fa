use vstd::prelude::*;

verus! {

/// The reason code of an accepted connection.
pub const SUCCESS: u8 = 0;

/// The kind of a control packet.
#[derive(Clone, Copy, Debug, PartialEq, Eq, Structural)]
pub enum PacketType {
    Connect,
    ConnectAck,
    Publish,
    PublishAck,
    PublishReceived,
    PublishRelease,
    PublishComplete,
    Subscribe,
    SubscribeAck,
    Unsubscribe,
    UnsubscribeAck,
    PingRequest,
    PingResponse,
    Disconnect,
    Auth,
}

/// The message that the server publishes when the client goes away uncleanly.
#[derive(Clone, Debug, PartialEq, Eq)]
pub struct LastWill {
    pub topic: String,
    pub message: Vec<u8>,
    pub qos: u8,
    pub retain: bool,
}

/// One user property: a name and a value.
pub type UserProperty = (String, String);

/// The user properties of a packet, in order.
pub type UserProperties = Vec<UserProperty>;

/// The CONNECT packet that a client opens a session with.
#[derive(Clone, Debug, PartialEq, Eq)]
pub struct Connect {
    pub client_id: String,
    pub clean_start: bool,
    /// Requested keep-alive interval, in seconds.
    pub keep_alive: u16,
    pub last_will: Option<LastWill>,
    pub auth_method: Option<String>,
    pub auth_data: Option<Vec<u8>>,
    pub username: Option<String>,
    pub password: Option<Vec<u8>>,
    /// Largest packet the client accepts; absent means unlimited.
    pub max_packet_size: Option<u32>,
    /// In-flight credit the client grants the server; absent means unlimited.
    pub receive_max: Option<u16>,
    pub user_properties: UserProperties,
}

impl Connect {
    /// The two optional limits are never zero: zero is written as absence.
    pub open spec fn wf(&self) -> bool {
        &&& (self.max_packet_size matches Some(v) ==> v > 0)
        &&& (self.receive_max matches Some(v) ==> v > 0)
    }
}

/// The CONNACK packet that a server answers a CONNECT with.
#[derive(Clone, Debug, PartialEq, Eq)]
pub struct ConnectAck {
    pub session_present: bool,
    /// Zero on success; any other value is a refusal.
    pub reason_code: u8,
    /// Keep-alive interval that the server imposes, in seconds.
    pub server_keepalive_sec: Option<u16>,
    /// Largest packet the server accepts.
    pub max_packet_size: Option<u32>,
    /// In-flight credit the server grants the client.
    pub receive_max: Option<u16>,
    pub assigned_client_id: Option<String>,
    pub reason_string: Option<String>,
    pub user_properties: UserProperties,
}

impl ConnectAck {
    pub open spec fn is_success(&self) -> bool {
        self.reason_code == SUCCESS
    }

    /// True when the server accepted the connection.
    pub fn success(&self) -> (r: bool)
        ensures
            r == self.is_success(),
    {
        self.reason_code == SUCCESS
    }
}

/// A decoded control packet. Only the handshake packets carry their contents;
/// the others are known here by their kind alone.
#[derive(Clone, Debug, PartialEq, Eq)]
pub enum Packet {
    Connect(Connect),
    ConnectAck(ConnectAck),
    Publish,
    PublishAck,
    PublishReceived,
    PublishRelease,
    PublishComplete,
    Subscribe,
    SubscribeAck,
    Unsubscribe,
    UnsubscribeAck,
    PingRequest,
    PingResponse,
    Disconnect,
    Auth,
}

impl Packet {
    pub open spec fn kind(&self) -> PacketType {
        match self {
            Packet::Connect(_) => PacketType::Connect,
            Packet::ConnectAck(_) => PacketType::ConnectAck,
            Packet::Publish => PacketType::Publish,
            Packet::PublishAck => PacketType::PublishAck,
            Packet::PublishReceived => PacketType::PublishReceived,
            Packet::PublishRelease => PacketType::PublishRelease,
            Packet::PublishComplete => PacketType::PublishComplete,
            Packet::Subscribe => PacketType::Subscribe,
            Packet::SubscribeAck => PacketType::SubscribeAck,
            Packet::Unsubscribe => PacketType::Unsubscribe,
            Packet::UnsubscribeAck => PacketType::UnsubscribeAck,
            Packet::PingRequest => PacketType::PingRequest,
            Packet::PingResponse => PacketType::PingResponse,
            Packet::Disconnect => PacketType::Disconnect,
            Packet::Auth => PacketType::Auth,
        }
    }

    /// The kind of this packet.
    pub fn packet_type(&self) -> (r: PacketType)
        ensures
            r == self.kind(),
    {
        match self {
            Packet::Connect(_) => PacketType::Connect,
            Packet::ConnectAck(_) => PacketType::ConnectAck,
            Packet::Publish => PacketType::Publish,
            Packet::PublishAck => PacketType::PublishAck,
            Packet::PublishReceived => PacketType::PublishReceived,
            Packet::PublishRelease => PacketType::PublishRelease,
            Packet::PublishComplete => PacketType::PublishComplete,
            Packet::Subscribe => PacketType::Subscribe,
            Packet::SubscribeAck => PacketType::SubscribeAck,
            Packet::Unsubscribe => PacketType::Unsubscribe,
            Packet::UnsubscribeAck => PacketType::UnsubscribeAck,
            Packet::PingRequest => PacketType::PingRequest,
            Packet::PingResponse => PacketType::PingResponse,
            Packet::Disconnect => PacketType::Disconnect,
            Packet::Auth => PacketType::Auth,
        }
    }
}

} // verus!
