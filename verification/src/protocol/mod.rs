//! The wire protocol: packets tagged with the sequence they belong to.
pub mod packet;
pub mod state;
