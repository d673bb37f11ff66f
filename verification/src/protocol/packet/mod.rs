//! Packets and the intents a sequence can carry.
pub mod intent;
pub mod packet;

pub use intent::Intent;
pub use packet::{OuterPacket, Packet};
