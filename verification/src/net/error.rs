//! Errors of connections.
use crate::crypto::CipherError;
use crate::sequence::error::SequenceError;
use vstd::prelude::*;

verus! {

/// Why a connection's event loop stopped with an error.
#[derive(Clone, Copy, Debug, PartialEq, Eq, Structural)]
pub enum ConnectionHandleError {
    HandlerError(SequenceError),
    EncryptError(CipherError),
    SerializationError,
    IOError,
    IllegalStateError,
}

/// Why a connection could not be opened or accepted.
#[derive(Debug)]
pub enum ConnectionCreateError {
    IOError(std::io::Error),
    ChannelError,
    BindError,
    AcceptListenerError,
}

} // verus!
