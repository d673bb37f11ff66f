//! Commands to the router.
pub mod state;
