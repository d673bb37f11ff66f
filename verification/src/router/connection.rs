//! The router's channel and what it keeps of connections.
use crate::router::command::state::Command;
use vstd::prelude::*;

verus! {

/// The sending half of the router's command channel.
pub type Channel = tokio::sync::mpsc::UnboundedSender<Command>;

/// The receiving half of the router's command channel.
pub type Receiver = tokio::sync::mpsc::UnboundedReceiver<Command>;

/// Why the controller stopped.
#[derive(Clone, Copy, Debug, PartialEq, Eq, Structural)]
pub enum ControllerError {
    ClosedChannelError,
}

/// An open connection known to the router.
#[derive(Clone, Copy, Debug)]
pub struct ActiveConnection {}

/// Where a forwarded request came from.
#[derive(Clone, Debug)]
pub struct FwdConnection {
    pub origin: String,
    pub origin_id: u128,
}

} // verus!
