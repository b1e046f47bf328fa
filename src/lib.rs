//! Connection establishment for MQTT v5: the client's CONNECT / CONNACK
//! handshake and the server's choice among protocol variants, as verified
//! state machines. The caller performs the I/O that each step asks for and
//! hands back what happened.

pub mod client;
pub mod error;
pub mod packet;
pub mod selector;
pub mod shared;
pub mod time;
