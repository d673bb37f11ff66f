//! What a connection's event loop carries and keeps.
use crate::connection::handler::{Handler, HandlerError};
use crate::connection::packet::Packet;
use crate::encrypt::{EncryptError, EncryptionHandler};
use vstd::prelude::*;

verus! {

/// The sending half of a connection's event channel.
pub type Channel = tokio::sync::mpsc::UnboundedSender<Message>;

/// The receiving half of a connection's event channel.
pub type Receiver = tokio::sync::mpsc::UnboundedReceiver<Message>;

/// An event of a connection.
pub enum Message {
    /// Begin key exchange
    StartExchange,
    /// Handle packet
    Packet(Packet),
    /// Send packet
    SendPacket(Packet),
    /// Close connection
    End,
    /// Close connection with an error
    EndError(ConnectionError),
}

/// Why a connection ended with an error.
#[derive(Clone, Copy, Debug, PartialEq, Eq, Structural)]
pub enum ConnectionError {
    HandlerError(HandlerError),
    EncryptError(EncryptError),
    SerializationError,
    IOError,
}

/// The state of a connection's event loop. `C` is the callback to run once
/// keys have gone both ways.
pub struct ConnectionState<C> {
    /// Encryption handler
    pub encryption: EncryptionHandler,
    /// Packet handler
    pub handler: Handler,
    /// Tracks key exchange
    pub sent_key: bool,
    /// Tracks key exchange
    pub recv_key: bool,
    /// Called after key exchange
    pub callback: Option<C>,
}

} // verus!
