//! What a connection's event loop keeps.
use crate::crypto::Cipher;
use crate::sequence::splitter::SequenceSplitter;
use vstd::prelude::*;

verus! {

/// The sending half of the router's command channel.
pub type RouterChannel = crate::router::connection::Channel;

/// The sending half of a connection's event channel.
pub type Channel = tokio::sync::mpsc::UnboundedSender<crate::net::message::Message>;

/// The receiving half of a connection's event channel.
pub type Receiver = tokio::sync::mpsc::UnboundedReceiver<crate::net::message::Message>;

/// The sending half of the controller's command channel.
pub type ControllerChannel = crate::control::state::Channel;

/// An event of a connection in the request-serving design.
#[derive(Clone, Debug)]
pub enum Message {
    /// Handle packet
    Packet(crate::net::packet::Packet),
    /// Send packet
    SendPacket(crate::net::packet::Packet),
    /// Close connection
    End,
}

/// The state of a connection's event loop.
pub struct ConnectionState {
    /// Encryption handler
    pub encryption: Cipher,
    /// Packet handler
    pub handler: SequenceSplitter,
}

impl ConnectionState {
    /// The state of a new connection: its cipher and no open sequence.
    pub fn new(encryption: Cipher) -> (r: Self)
        ensures
            r.encryption == encryption,
            r.handler.wf(),
            r.handler@ == Map::<u128, crate::sequence::server::setup::SetupSequence>::empty(),
    {
        ConnectionState { encryption, handler: SequenceSplitter::new() }
    }
}

} // verus!
