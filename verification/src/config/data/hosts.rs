//! The list of known peers.
pub use crate::config::data::Hosts;
