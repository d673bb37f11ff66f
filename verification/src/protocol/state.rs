//! What a packet handler or a task can reach on its connection.
use crate::crypto::Cipher;
use crate::net::message::Message;
use crate::net::state::RouterChannel;
use crate::outbox::Outbox;
use crate::sequence::splitter::SequenceSplitter;
use vstd::prelude::*;

verus! {

/// The connection a packet arrived on, or a task runs for: the peer's
/// address, the connection's event channel, the router's command channel, the
/// connection's cipher and, where it may be changed, its open sequences.
pub struct PacketState<'a> {
    pub origin: &'a str,
    pub channel: &'a mut Outbox<Message>,
    pub controller: &'a RouterChannel,
    pub encryption: &'a mut Cipher,
    pub handler: Option<&'a mut SequenceSplitter>,
}

} // verus!
