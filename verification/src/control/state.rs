//! Commands the controller handles, and what it keeps of connections.
use vstd::prelude::*;

verus! {

/// The sending half of the controller's command channel.
pub type Channel = tokio::sync::mpsc::UnboundedSender<Command>;

/// The receiving half of the controller's command channel.
pub type Receiver = tokio::sync::mpsc::UnboundedReceiver<Command>;

/// Why the controller stopped.
#[derive(Clone, Copy, Debug, PartialEq, Eq, Structural)]
pub enum ControllerError {
    ClosedChannelError,
}

/// A command to the controller.
#[derive(Clone, Debug)]
pub enum Command {
    /// Forward `data`, which arrived from `origin` under sequence `id`.
    ForwardData { origin: String, id: u128, data: Vec<u8> },
}

/// An open connection known to the controller.
#[derive(Clone, Copy, Debug)]
pub struct Connection {}

/// Where a forwarded request came from.
#[derive(Clone, Debug)]
pub struct FwdConnection {
    pub origin: String,
    pub origin_id: u128,
}

} // verus!
