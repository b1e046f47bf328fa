use vstd::prelude::*;

use crate::packet::{ConnectAck, PacketType};

verus! {

/// The packet that the protocol required where another one came.
#[derive(Clone, Copy, Debug, PartialEq, Eq, Structural)]
pub enum Expected {
    /// A client waits for CONNECT-ACK after its CONNECT.
    ConnectAck,
    /// The first packet on a server connection must be CONNECT.
    ConnectFirst,
}

impl Expected {
    pub open spec fn text(&self) -> Seq<char> {
        match self {
            Expected::ConnectAck => "Expected CONNECT-ACK packet"@,
            Expected::ConnectFirst => "MQTT-3.1.0-1: Expected CONNECT packet"@,
        }
    }

    /// The rule that was broken, in words.
    pub fn message(&self) -> (r: &'static str)
        ensures
            r@ == self.text(),
    {
        match self {
            Expected::ConnectAck => {
                proof {
                    reveal_strlit("Expected CONNECT-ACK packet");
                }
                "Expected CONNECT-ACK packet"
            },
            Expected::ConnectFirst => {
                proof {
                    reveal_strlit("MQTT-3.1.0-1: Expected CONNECT packet");
                }
                "MQTT-3.1.0-1: Expected CONNECT packet"
            },
        }
    }
}

/// A breach of the protocol by the peer.
#[derive(Clone, Copy, Debug, PartialEq, Eq, Structural)]
pub enum ProtocolError {
    /// A packet of the given kind came where the other packet was required.
    Unexpected(PacketType, Expected),
    /// The bytes received do not decode as a packet.
    Decode,
}

/// Why a client's connect attempt failed.
#[derive(Clone, Debug, PartialEq, Eq)]
pub enum ClientError {
    /// The server answered, and refused: its whole acknowledgment.
    Ack(ConnectAck),
    /// The server broke the protocol.
    Protocol(ProtocolError),
    /// The handshake did not finish within the configured time.
    HandshakeTimeout,
    /// The server closed the connection before it answered.
    Disconnected,
    /// No stream to the server could be opened.
    Connect,
    /// Reading or writing the stream failed.
    Io,
}

/// Why a server connection failed; `E` is the error of the accepting variant.
#[derive(Clone, Debug, PartialEq, Eq)]
pub enum MqttError<E> {
    /// The variant that took the connection failed.
    Service(E),
    /// The client broke the protocol.
    Protocol(ProtocolError),
    /// The client closed the connection before its CONNECT arrived.
    Disconnected,
    /// No variant took a well-formed CONNECT.
    ServerError,
    /// Reading the stream failed.
    Io,
}

/// The text of a connection that no variant took.
pub fn server_error_message() -> (r: &'static str)
    ensures
        r@ == "Cannot handle CONNECT packet"@,
{
    proof {
        reveal_strlit("Cannot handle CONNECT packet");
    }
    "Cannot handle CONNECT packet"
}

} // verus!
