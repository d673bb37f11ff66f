//! What a handler can reach while it handles a packet.
use crate::control::state::Command;
use crate::net::state::Message;
use crate::outbox::Outbox;
use vstd::prelude::*;

verus! {

/// The connection a packet arrived on: the peer's address, the connection's
/// own event channel and the controller's command channel. The encryption
/// state is passed beside it, since it is changed.
pub struct PacketState<'a> {
    pub origin: &'a str,
    pub channel: Outbox<Message>,
    pub controller: Outbox<Command>,
}

} // verus!
