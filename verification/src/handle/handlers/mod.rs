//! The handlers of a connection.
pub mod fwd;
pub mod intent;
pub mod setup;
pub mod sync;
