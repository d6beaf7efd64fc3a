//! Decision logic of a bridge between a guild chat platform and an IRC network:
//! which guild channels are bridged, which relay identity posts into each of
//! them, and what every inbound event turns into on the other side.

pub mod color;
pub mod channels;
pub mod relay;
pub mod bridge;
