//! Sequences this node initiates.
pub mod setup;
