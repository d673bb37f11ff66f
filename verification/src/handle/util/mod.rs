//! What the handlers share: their states, errors and transitions.
pub mod error;
pub mod handler;
pub mod state;
