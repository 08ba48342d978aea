//! Minecraft 1.20.1 (protocol 763) packet definitions.

pub mod c2s;
pub mod s2c;

use vstd::prelude::*;

use crate::protocol::Protocol;

verus! {

/// Marker type for the Minecraft 1.20.1 protocol.
#[derive(Debug, Clone, Copy, Default, PartialEq, Eq, Structural)]
pub struct V1_20_1;

impl Protocol for V1_20_1 {
    open spec fn spec_protocol_version() -> usize {
        763
    }

    open spec fn spec_minecraft_version() -> Seq<char> {
        "1.20.1"@
    }

    fn protocol_version(&self) -> (r: usize) {
        763
    }

    fn minecraft_version(&self) -> (r: &'static str) {
        "1.20.1"
    }
}

} // verus!
