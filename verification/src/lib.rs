//! Verified wire formats and connection logic of a Minecraft limbo server.

pub mod bitset;
pub mod common;
pub mod codec;
pub mod containers;
pub mod error;
pub mod packet;
pub mod position;
pub mod primitives;
pub mod protocol;
pub mod server;
pub mod state;
pub mod v1_20_1;
pub mod v1_21_1;
pub mod varint;
