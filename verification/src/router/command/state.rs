//! The commands the router handles.
use crate::net::state::Channel;
use vstd::prelude::*;

verus! {

/// A command to the router.
#[derive(Clone, Debug)]
pub enum Command {
    /// Try to open a connection to `target`.
    TryOpenConnection { target: String },

    /// Register the connection to `origin`, reachable on `channel`.
    AddConnection { origin: String, channel: Channel },
}

} // verus!
